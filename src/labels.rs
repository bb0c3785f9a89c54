use vstd::prelude::*;

verus! {

/// Label key that marks every pod this tool creates.
pub open spec fn marker_key() -> Seq<char> {
    "pv-inspect"@
}

/// Marker value of a pod whose session is live.
pub open spec fn marker_active() -> Seq<char> {
    "active"@
}

/// Marker value that asks a sweeper with delete rights to remove the pod.
pub open spec fn marker_deferred() -> Seq<char> {
    "0"@
}

pub fn marker_key_string() -> (r: String)
    ensures
        r@ == marker_key(),
{
    String::from_str("pv-inspect")
}

pub fn marker_active_string() -> (r: String)
    ensures
        r@ == marker_active(),
{
    String::from_str("active")
}

pub fn marker_deferred_string() -> (r: String)
    ensures
        r@ == marker_deferred(),
{
    String::from_str("0")
}

} // verus!
