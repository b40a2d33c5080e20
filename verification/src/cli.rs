//! Parsing of command-line values.
//!
//! A `--tag` option carries one `KEY=value` pair, split on the first `=`;
//! a value without `=` is refused with the message the user sees.

use vstd::prelude::*;

verus! {

/// Splits a `KEY=value` argument on the first `=`. A string without `=`
/// is refused, naming the offending input.
pub fn parse_key_val(s: &str) -> (r: Result<(String, String), String>)
    ensures
        r is Ok <==> (exists|i: int| 0 <= i < s@.len() && s@[i] == '='),
        r is Ok ==> exists|p: int|
            0 <= p < s@.len() && #[trigger] s@[p] == '=' && (forall|j: int|
                0 <= j < p ==> s@[j] != '=') && r->Ok_0.0@ == s@.subrange(0, p) && r->Ok_0.1@
                == s@.subrange(p + 1, s@.len() as int),
        r is Err ==> r->Err_0@ == "invalid KEY=value: no `=` found in `"@ + s@ + "`"@,
{
    let len = s.unicode_len();
    let mut i: usize = 0;
    #[verifier::loop_isolation(false)]
    while i < len
        invariant
            i <= len,
            forall|j: int| 0 <= j < i ==> s@[j] != '=',
        decreases len - i,
    {
        if s.get_char(i) == '=' {
            let key = s.substring_char(0, i).to_owned();
            let value = s.substring_char(i + 1, len).to_owned();
            return Result::Ok((key, value));
        }
        i = i + 1;
    }
    let mut msg = String::from_str("invalid KEY=value: no `=` found in `");
    msg.append(s);
    msg.append("`");
    Result::Err(msg)
}

} // verus!
