//! Command name normalization.
//!
//! A raw command identifier may carry a namespace prefix terminated by the
//! last `:` and a member-access suffix introduced by the last `.`. The
//! normalizer rewrites the member access into a `$character.` dispatch key
//! so that the host can resolve a command adapter for it. The transform is
//! pure and total over all strings.

use vstd::prelude::*;
use vstd::string::*;

verus! {

/// Position of the last occurrence of `c` in `s`, where position 0 stands
/// for "absent": an occurrence at index 0 counts the same as no occurrence.
pub open spec fn last_marker(s: Seq<char>, c: char) -> int
    decreases s.len(),
{
    if s.len() == 0 {
        0
    } else if s[s.len() - 1] == c {
        s.len() - 1
    } else {
        last_marker(s.drop_last(), c)
    }
}

/// The characters of the dispatch-key tag `"$character."`.
pub open spec fn character_tag() -> Seq<char> {
    seq!['$', 'c', 'h', 'a', 'r', 'a', 'c', 't', 'e', 'r', '.']
}

/// The normalized form of a raw command name, by the positions of the last
/// `:` and the last `.` (0 when absent):
/// - no `.`: the name unchanged;
/// - a `.` but no `:`: `$character.` followed by what stands after the last `.`;
/// - both: the prefix up to and including the `:`, then `$character.`, then
///   what stands after the last `.`.
pub open spec fn normalized(s: Seq<char>) -> Seq<char> {
    let colon = last_marker(s, ':');
    let dot = last_marker(s, '.');
    if dot == 0 {
        s
    } else if colon == 0 {
        character_tag() + s.subrange(dot + 1, s.len() as int)
    } else {
        s.subrange(0, colon + 1) + character_tag() + s.subrange(dot + 1, s.len() as int)
    }
}

/// Extending the scanned prefix by one character updates the marker exactly
/// as the scanning loop does.
proof fn lemma_last_marker_step(s: Seq<char>, c: char, i: int)
    requires
        0 <= i < s.len(),
    ensures
        last_marker(s.take(i + 1), c) == if s[i] == c {
            i
        } else {
            last_marker(s.take(i), c)
        },
{
    assert(s.take(i + 1).drop_last() =~= s.take(i));
    assert(s.take(i + 1)[i] == s[i]);
}

/// Transforms a command name into its normalized dispatch key.
/// This is used for lookups to command adapters in the host.
pub fn get_normalized_command(command: &str) -> (r: String)
    ensures
        r@ == normalized(command@),
{
    let len = command.unicode_len();
    // Positions of the last `:` and `.`; 0 means absent.
    let mut colon: usize = 0;
    let mut dot: usize = 0;
    let mut i: usize = 0;
    while i < len
        invariant
            len == command@.len(),
            i <= len,
            colon as int == last_marker(command@.take(i as int), ':'),
            dot as int == last_marker(command@.take(i as int), '.'),
            colon <= i,
            dot <= i,
            colon < len || colon == 0,
            dot < len || dot == 0,
        decreases len - i,
    {
        let c = command.get_char(i);
        proof {
            lemma_last_marker_step(command@, ':', i as int);
            lemma_last_marker_step(command@, '.', i as int);
        }
        if c == ':' {
            colon = i;
        } else if c == '.' {
            dot = i;
        }
        i += 1;
    }
    proof {
        assert(command@.take(len as int) =~= command@);
    }
    if dot == 0 {
        let r = command.to_owned();
        r
    } else if colon == 0 {
        let mut r = String::from_str("$character.");
        let suffix = command.substring_char(dot + 1, len);
        r.append(suffix);
        proof {
            reveal_strlit("$character.");
            assert("$character."@ =~= character_tag());
            assert(r@ =~= normalized(command@));
        }
        r
    } else {
        let prefix = command.substring_char(0, colon + 1);
        let mut r = prefix.to_owned();
        r.append("$character.");
        let suffix = command.substring_char(dot + 1, len);
        r.append(suffix);
        proof {
            reveal_strlit("$character.");
            assert("$character."@ =~= character_tag());
            assert(r@ =~= normalized(command@));
        }
        r
    }
}

} // verus!
