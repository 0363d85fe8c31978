//! Registry key formatting: every stored key lives under the global
//! prefix, one formatting helper per key family.

use vstd::prelude::*;

use crate::strpath::push_char;

verus! {

/// The global key prefix.
pub open spec fn spec_key_prefix() -> Seq<char> {
    "eva"@
}

/// `eva/<key>`.
pub fn format_top_key(key: &str) -> (r: String)
    ensures
        r@ == spec_key_prefix() + seq!['/'] + key@,
{
    let mut s = "eva".to_owned();
    push_char(&mut s, '/');
    s.append(key);
    proof {
        assert(s@ =~= spec_key_prefix() + seq!['/'] + key@);
    }
    s
}

/// `eva/<prefix>/<key>`.
pub fn format_key(prefix: &str, key: &str) -> (r: String)
    ensures
        r@ == spec_key_prefix() + seq!['/'] + prefix@ + seq!['/'] + key@,
{
    let mut s = "eva".to_owned();
    push_char(&mut s, '/');
    s.append(prefix);
    push_char(&mut s, '/');
    s.append(key);
    proof {
        assert(s@ =~= spec_key_prefix() + seq!['/'] + prefix@ + seq!['/'] + key@);
    }
    s
}

/// `eva/config/<key>`.
pub fn format_config_key(key: &str) -> (r: String)
    ensures
        r@ == spec_key_prefix() + seq!['/'] + "config"@ + seq!['/'] + key@,
{
    format_key("config", key)
}

/// `eva/data/<key>`.
pub fn format_data_key(key: &str) -> (r: String)
    ensures
        r@ == spec_key_prefix() + seq!['/'] + "data"@ + seq!['/'] + key@,
{
    format_key("data", key)
}

/// `eva/svc_data/<key>`.
pub fn format_svc_data_key(key: &str) -> (r: String)
    ensures
        r@ == spec_key_prefix() + seq!['/'] + "svc_data"@ + seq!['/'] + key@,
{
    format_key("svc_data", key)
}

/// `svc_data/<key>`: the key relative to the service's own tree.
pub fn format_svc_data_subkey(key: &str) -> (r: String)
    ensures
        r@ == "svc_data"@ + seq!['/'] + key@,
{
    let mut s = "svc_data".to_owned();
    push_char(&mut s, '/');
    s.append(key);
    proof {
        assert(s@ =~= "svc_data"@ + seq!['/'] + key@);
    }
    s
}

} // verus!
