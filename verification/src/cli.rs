//! The pure part of the interactive command shell: splitting one input line
//! into command, subcommand and arguments. The loop that reads lines and
//! dispatches them lives outside the verified core.

use vstd::prelude::*;
use vstd::string::StrSliceExecFns;
use vstd::string::StringExecFns;

verus! {

/// Index of the first space of `s` at or after `i`, or `-1` if there is none.
pub open spec fn first_space_from(s: Seq<char>, i: int) -> int
    decreases s.len() - i,
{
    if !(0 <= i < s.len()) {
        -1
    } else if s[i] == ' ' {
        i
    } else {
        first_space_from(s, i + 1)
    }
}

/// The space-separated fields of a line; never empty, and an empty line
/// yields one empty field.
pub open spec fn split_spaces(s: Seq<char>) -> Seq<Seq<char>>
    decreases s.len(),
{
    let k = first_space_from(s, 0);
    if !(0 <= k < s.len()) {
        seq![s]
    } else {
        seq![s.take(k)] + split_spaces(s.skip(k + 1))
    }
}

/// What one input line means: nothing for an empty line; otherwise the first
/// field is the command, the second (if any) the subcommand, the rest the
/// arguments.
pub open spec fn sp_parse_cli(text: Seq<char>) -> Option<(Seq<char>, Seq<char>, Seq<Seq<char>>)> {
    let parts = split_spaces(text);
    if parts.len() == 1 {
        if parts[0].len() == 0 {
            None
        } else {
            Some((parts[0], Seq::empty(), Seq::empty()))
        }
    } else if parts.len() == 2 {
        Some((parts[0], parts[1], Seq::empty()))
    } else {
        Some((parts[0], parts[1], parts.skip(2)))
    }
}

/// The interactive shell command. Its read-dispatch loop is I/O and stands
/// outside the library; the meaning of one input line is defined here.
pub struct CliCmd;

impl CliCmd {
    /// Splits one input line into command, subcommand and arguments.
    #[verifier::loop_isolation(false)]
    pub fn parse_cli_text(text: String) -> (r: Option<(String, String, Vec<String>)>)
        ensures
            match sp_parse_cli(text@) {
                None => r is None,
                Some(p) => r matches Some(q) && q.0@ == p.0 && q.1@ == p.1
                    && crate::parse::view_strs(q.2@) == p.2,
            },
    {
        let mut parts: Vec<String> = Vec::new();
        let mut rem = text.clone();
        proof {
            assert(crate::parse::view_strs(parts@) =~= Seq::<Seq<char>>::empty());
            assert(crate::parse::view_strs(parts@) + split_spaces(rem@) =~= split_spaces(text@));
        }
        loop
            invariant
                crate::parse::view_strs(parts@) + split_spaces(rem@) == split_spaces(text@),
            decreases rem@.len(),
        {
            let ghost partsv = crate::parse::view_strs(parts@);
            let n = rem.unicode_len();
            let mut i: usize = 0;
            while i < n && !(rem.get_char(i) == ' ')
                invariant
                    i <= n,
                    n == rem@.len(),
                    first_space_from(rem@, 0) == first_space_from(rem@, i as int),
                decreases n - i,
            {
                i += 1;
            }
            if i == n {
                proof {
                    assert(first_space_from(rem@, i as int) == -1);
                    assert(split_spaces(rem@) =~= seq![rem@]);
                    assert(crate::parse::view_strs(parts@.push(rem)) =~= partsv.push(rem@));
                    assert(partsv + seq![rem@] =~= partsv.push(rem@));
                }
                parts.push(rem);
                break ;
            }
            proof {
                assert(first_space_from(rem@, i as int) == i);
            }
            let head = rem.as_str().substring_char(0, i).to_owned();
            let tail = rem.as_str().substring_char(i + 1, n).to_owned();
            proof {
                assert(split_spaces(rem@) == seq![rem@.take(i as int)] + split_spaces(
                    rem@.skip(i + 1),
                ));
                assert(tail@ =~= rem@.skip(i + 1));
                assert(crate::parse::view_strs(parts@.push(head)) =~= partsv.push(head@));
                assert(partsv.push(head@) + split_spaces(tail@) =~= partsv + split_spaces(rem@));
            }
            parts.push(head);
            rem = tail;
        }
        let ghost partsv = crate::parse::view_strs(parts@);
        proof {
            assert(partsv + Seq::<Seq<char>>::empty() =~= partsv);
            assert(partsv == split_spaces(text@));
        }
        if parts.len() == 1 {
            let first = parts.remove(0);
            if first.as_str().unicode_len() == 0 {
                return None;
            }
            let empty_args: Vec<String> = Vec::new();
            proof {
                reveal_strlit("");
                assert(""@ =~= Seq::<char>::empty());
                assert(first@ == partsv[0]);
                assert(crate::parse::view_strs(empty_args@) =~= Seq::<Seq<char>>::empty());
            }
            return Some((first, "".to_owned(), empty_args));
        }
        if parts.len() == 2 {
            let first = parts.remove(0);
            let second = parts.remove(0);
            let empty_args: Vec<String> = Vec::new();
            proof {
                assert(first@ == partsv[0]);
                assert(second@ == partsv[1]);
                assert(crate::parse::view_strs(empty_args@) =~= Seq::<Seq<char>>::empty());
            }
            return Some((first, second, empty_args));
        }
        let first = parts.remove(0);
        let second = parts.remove(0);
        proof {
            assert(first@ == partsv[0]);
            assert(second@ == partsv[1]);
            assert(crate::parse::view_strs(parts@) =~= partsv.skip(2));
        }
        Some((first, second, parts))
    }
}

} // verus!
