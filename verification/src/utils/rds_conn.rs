//! Settings applied to the key-value store at start-up.
use vstd::prelude::*;

verus! {

/// The store's eviction settings: memory limit, eviction policy and sample
/// size, each from its environment variable or, when unset, `256mb`,
/// `allkeys-lru` and `5`.
pub open spec fn lru_settings_spec(
    maxmemory: Option<Seq<char>>,
    eviction_policy: Option<Seq<char>>,
    lru_samples: Option<Seq<char>>,
) -> Seq<(Seq<char>, Seq<char>)> {
    seq![
        ("maxmemory"@, match maxmemory { Some(v) => v, None => "256mb"@ }),
        ("maxmemory-policy"@, match eviction_policy { Some(v) => v, None => "allkeys-lru"@ }),
        ("maxmemory-samples"@, match lru_samples { Some(v) => v, None => "5"@ }),
    ]
}

/// The views of a list of setting pairs.
pub open spec fn pair_views(pairs: Seq<(String, String)>) -> Seq<(Seq<char>, Seq<char>)> {
    pairs.map_values(|p: (String, String)| (p.0@, p.1@))
}

/// The view of an optional text.
pub open spec fn opt_view(s: Option<String>) -> Option<Seq<char>> {
    match s {
        Some(v) => Some(v@),
        None => None,
    }
}

fn or_default(v: Option<String>, default: &str) -> (r: String)
    ensures
        r@ == match opt_view(v) {
            Some(x) => x,
            None => default@,
        },
{
    match v {
        Some(x) => x,
        None => default.to_owned(),
    }
}

/// The `CONFIG SET` pairs that put the store under LRU eviction, from the
/// values of `REDIS_MAXMEMORY`, `REDIS_EVICTION_POLICY` and `REDIS_LRU_SAMPLES`.
pub fn configure_redis_lru(
    maxmemory: Option<String>,
    eviction_policy: Option<String>,
    lru_samples: Option<String>,
) -> (r: Vec<(String, String)>)
    ensures
        pair_views(r@) == lru_settings_spec(opt_view(maxmemory), opt_view(eviction_policy), opt_view(lru_samples)),
{
    let ghost m = opt_view(maxmemory);
    let ghost p = opt_view(eviction_policy);
    let ghost s = opt_view(lru_samples);
    let mut r: Vec<(String, String)> = Vec::new();
    r.push(("maxmemory".to_owned(), or_default(maxmemory, "256mb")));
    r.push(("maxmemory-policy".to_owned(), or_default(eviction_policy, "allkeys-lru")));
    r.push(("maxmemory-samples".to_owned(), or_default(lru_samples, "5")));
    assert(pair_views(r@) =~= lru_settings_spec(m, p, s));
    r
}

/// The arguments of the `CONFIG` command that sets `key` to `value`.
pub fn set_config(key: &str, value: &str) -> (r: Vec<String>)
    ensures
        r@.len() == 3,
        r@[0]@ == "SET"@,
        r@[1]@ == key@,
        r@[2]@ == value@,
{
    let mut r: Vec<String> = Vec::new();
    r.push("SET".to_owned());
    r.push(key.to_owned());
    r.push(value.to_owned());
    r
}

/// Whether LRU settings are applied at start-up: only when
/// `ENABLE_REDIS_LRU_CONFIG` is exactly `true`.
pub fn lru_config_enabled(flag: Option<String>) -> (r: bool)
    ensures
        r == (opt_view(flag) == Some("true"@)),
{
    match flag {
        Some(f) => {
            let t = "true".to_owned();
            f.eq(&t)
        },
        None => {
            proof {
                reveal_strlit("true");
            }
            false
        },
    }
}

} // verus!
