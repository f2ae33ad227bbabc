use vstd::prelude::*;

verus! {

/// The address of the player API script; a script whose source starts with
/// it is the API script.
pub const API_SCRIPT_URL: &'static str = "https://www.youtube.com/player_api";

/// How to get the player API ready.
#[derive(Debug, Clone, Copy, PartialEq, Eq, Structural)]
pub enum ApiLoadStep {
    /// The script is on the page and its global is there: ready now.
    ResolveNow,
    /// Put the load hook in place, chained to any earlier one, and add the
    /// script to the page unless it is there already.
    InstallHook { insert_script: bool },
}

/// Whether `s` starts with `prefix`.
pub fn starts_with(s: &str, prefix: &str) -> (r: bool)
    ensures
        r == (prefix@.len() <= s@.len() && s@.take(prefix@.len() as int) == prefix@),
{
    let n = prefix.unicode_len();
    if n > s.unicode_len() {
        return false;
    }
    let mut i: usize = 0;
    while i < n
        invariant
            n == prefix@.len(),
            n <= s@.len(),
            i <= n,
            s@.take(i as int) == prefix@.take(i as int),
        decreases n - i,
    {
        if s.get_char(i) != prefix.get_char(i) {
            assert(s@.take(n as int)[i as int] != prefix@[i as int]);
            return false;
        }
        assert(s@.take(i + 1) =~= s@.take(i as int).push(s@[i as int]));
        assert(prefix@.take(i + 1) =~= prefix@.take(i as int).push(prefix@[i as int]));
        i = i + 1;
    }
    assert(prefix@ =~= prefix@.take(n as int));
    true
}

/// Whether a script source on the page loads the player API.
pub open spec fn is_api_script(src: Seq<char>) -> bool {
    API_SCRIPT_URL@.len() <= src.len() && src.take(API_SCRIPT_URL@.len() as int) == API_SCRIPT_URL@
}

/// Whether any of the script sources loads the player API.
pub open spec fn api_script_present(sources: Seq<String>) -> bool {
    exists|i: int| 0 <= i < sources.len() && is_api_script(#[trigger] sources[i]@)
}

/// Decides how to get the player API ready, from the sources of the scripts
/// on the page and whether the API's global object is already usable.
pub fn plan_api_load(script_sources: &Vec<String>, api_global_ready: bool) -> (r: ApiLoadStep)
    ensures
        r == if api_script_present(script_sources@) && api_global_ready {
            ApiLoadStep::ResolveNow
        } else {
            (ApiLoadStep::InstallHook { insert_script: !api_script_present(script_sources@) })
        },
{
    let mut present = false;
    let mut i: usize = 0;
    while i < script_sources.len()
        invariant
            i <= script_sources@.len(),
            present == exists|j: int|
                0 <= j < i && is_api_script(#[trigger] script_sources@[j]@),
        decreases script_sources@.len() - i,
    {
        if starts_with(script_sources[i].as_str(), API_SCRIPT_URL) {
            present = true;
        }
        i = i + 1;
    }
    if present && api_global_ready {
        ApiLoadStep::ResolveNow
    } else {
        ApiLoadStep::InstallHook { insert_script: !present }
    }
}

} // verus!
