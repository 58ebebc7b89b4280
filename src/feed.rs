use vstd::prelude::*;
use crate::text::{occurs_at, prefix_at};

verus! {

/// The tag under which the stream's filter rule is registered.
pub const STREAM_RULE_TAG: &'static str = "official_account_tweets";

/// Whether two texts are equal.
pub fn same_text(a: &str, b: &str) -> (r: bool)
    ensures
        r == (a@ == b@),
{
    let n = a.unicode_len();
    if n != b.unicode_len() {
        return false;
    }
    let r = occurs_at(a, n, 0, b);
    proof {
        if r {
            assert(a@.subrange(0, n as int) =~= a@);
        }
        if a@ == b@ {
            assert(a@.subrange(0, n as int) =~= a@);
            assert(prefix_at(a@, 0, b@));
        }
    }
    r
}

/// Whether one of the registered rules' tags is `STREAM_RULE_TAG`.
pub fn has_stream_rule(tags: &Vec<String>) -> (r: bool)
    ensures
        r == exists|i: int| 0 <= i < tags@.len() && (#[trigger] tags@[i])@ == STREAM_RULE_TAG@,
{
    let mut i: usize = 0;
    while i < tags.len()
        invariant
            i <= tags@.len(),
            forall|k: int| 0 <= k < i ==> (#[trigger] tags@[k])@ != STREAM_RULE_TAG@,
        decreases tags.len() - i,
    {
        if same_text(tags[i].as_str(), STREAM_RULE_TAG) {
            return true;
        }
        i = i + 1;
    }
    false
}

/// The filter rule that selects the posts of `username`.
pub fn stream_rule_value(username: &str) -> (r: String)
    ensures
        r@ == "from:"@ + username@,
{
    let mut s = String::from_str("from:");
    s.append(username);
    s
}

} // verus!
