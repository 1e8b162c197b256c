//! Properties of update runs, stated over the model of a run and proved.
use vstd::prelude::*;
use crate::extract::{ending_patterns, nsig_code_of, nsig_function_name_of, player_data_of};
use crate::matcher::{first_match, views};
use crate::patterns::PatternLibrary;
use crate::player::{
    freshness_of, resolved_id, run_outcome, CacheView, FetchUpdateStatus, Freshness, UpdateConfig,
};

verus! {

/// The identifier and the three pieces of code of a cache, with the timestamp.
pub open spec fn code_group(c: CacheView) -> (u32, Seq<char>, Seq<char>, Seq<char>, u64) {
    (
        c.player_id,
        c.nsig_function_code,
        c.sig_function_code,
        c.sig_function_name,
        c.signature_timestamp,
    )
}

/// A second run with the same reference page and bundle, after a run that
/// succeeded, and with no override and updates allowed, reports the player
/// as already current and leaves the identifier and every code field as
/// the first run left them.
pub proof fn law_second_run_reports_current(
    c: CacheView,
    lib: &PatternLibrary,
    cfg: UpdateConfig,
    page: Option<Seq<char>>,
    bundle: Option<Seq<char>>,
    ts1: u64,
    ts2: u64,
    now1: u64,
    now2: u64,
)
    requires
        cfg.forced_player_id == 0,
        !cfg.update_disabled,
        run_outcome(c, lib, cfg, page, bundle, ts1, now1).1 is Ok,
    ensures
        ({
            let first = run_outcome(c, lib, cfg, page, bundle, ts1, now1).0;
            let second = run_outcome(first, lib, cfg, page, bundle, ts2, now2);
            &&& second.1 == Err::<(), FetchUpdateStatus>(FetchUpdateStatus::PlayerAlreadyUpdated)
            &&& code_group(second.0) == code_group(first)
            &&& second.0.populated == first.populated
        }),
{
}

/// Without delegation, a run either leaves the identifier and the code of
/// the cache as they were, or installs an identifier together with exactly
/// the code extracted from the bundle fetched for it: never a new identifier
/// with other code.
pub proof fn law_code_group_comes_from_one_bundle(
    c: CacheView,
    lib: &PatternLibrary,
    cfg: UpdateConfig,
    page: Option<Seq<char>>,
    bundle: Option<Seq<char>>,
    ts: u64,
    now: u64,
)
    requires
        !cfg.delegated,
    ensures
        ({
            let after = run_outcome(c, lib, cfg, page, bundle, ts, now).0;
            code_group(after) == code_group(c) || (bundle is Some && player_data_of(
                lib,
                bundle->0,
            ) == Some(
                (
                    after.nsig_function_code,
                    after.sig_function_code,
                    after.sig_function_name,
                    after.signature_timestamp,
                ),
            ))
        }),
{
}

/// A run that fails leaves the cache as it was, but for the time of the last
/// update when it found the cache current.
pub proof fn law_failed_run_keeps_cache(
    c: CacheView,
    lib: &PatternLibrary,
    cfg: UpdateConfig,
    page: Option<Seq<char>>,
    bundle: Option<Seq<char>>,
    ts: u64,
    now: u64,
)
    ensures
        ({
            let (after, r) = run_outcome(c, lib, cfg, page, bundle, ts, now);
            &&& r is Err ==> code_group(after) == code_group(c) && after.populated == c.populated
            &&& (r is Err && r != Err::<(), FetchUpdateStatus>(
                FetchUpdateStatus::PlayerAlreadyUpdated,
            )) ==> after == c
        }),
{
}

/// When no ending pattern finds the nsig function in the bundle, extraction
/// fails, and a run that needs that bundle fails with the extraction failure
/// and leaves the cache untouched.
pub proof fn law_no_ending_fails_run(
    c: CacheView,
    lib: &PatternLibrary,
    cfg: UpdateConfig,
    page: Option<Seq<char>>,
    js: Seq<char>,
    name: Seq<char>,
    ts: u64,
    now: u64,
)
    requires
        nsig_function_name_of(lib, js) == Some(name),
        first_match(ending_patterns(name, views(lib.nsig_endings@)), js) is None,
    ensures
        nsig_code_of(lib, js, name) is None,
        player_data_of(lib, js) is None,
        ({
            let (after, r) = run_outcome(c, lib, cfg, page, Some(js), ts, now);
            (resolved_id(lib, cfg, page) matches Ok(id) && freshness_of(c, cfg, id)
                == Freshness::FetchBundle) ==> after == c && r == Err::<(), FetchUpdateStatus>(
                FetchUpdateStatus::NsigRegexCompileFailed,
            )
        }),
{
}

/// With an override set, the reference page plays no part: any two pages,
/// fetched or not, give the same run, and a run that installs a player
/// installs the override.
pub proof fn law_override_ignores_reference_page(
    c: CacheView,
    lib: &PatternLibrary,
    cfg: UpdateConfig,
    page1: Option<Seq<char>>,
    page2: Option<Seq<char>>,
    bundle: Option<Seq<char>>,
    ts: u64,
    now: u64,
)
    requires
        cfg.forced_player_id != 0,
    ensures
        run_outcome(c, lib, cfg, page1, bundle, ts, now) == run_outcome(
            c,
            lib,
            cfg,
            page2,
            bundle,
            ts,
            now,
        ),
        ({
            let (after, r) = run_outcome(c, lib, cfg, page1, bundle, ts, now);
            (r is Ok && after != c) ==> after.player_id == cfg.forced_player_id
        }),
{
}

/// A cache once filled stays filled, whatever a later run brings.
pub proof fn law_populated_stays_populated(
    c: CacheView,
    lib: &PatternLibrary,
    cfg: UpdateConfig,
    page: Option<Seq<char>>,
    bundle: Option<Seq<char>>,
    ts: u64,
    now: u64,
)
    requires
        c.populated,
    ensures
        run_outcome(c, lib, cfg, page, bundle, ts, now).0.populated,
{
}

} // verus!
