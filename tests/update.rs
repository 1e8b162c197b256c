use player_update::extract::{
    extract_nsig_code, extract_nsig_function_name, extract_player_js_global_var,
    extract_signature_code, extract_signature_timestamp, fixup_nsig_jscode,
};
use player_update::matcher::first_matching;
use player_update::player::{
    identity_source, player_id_forced, player_id_from_page, player_id_update_disabled,
    player_js_url, IdentitySource,
};
use player_update::text::{escape_dollars_in, hex8_of, nth_field, parse_number, replace_all_literal};
use player_update::{
    apply_update, check_freshness, extract_player_data, FetchUpdateStatus, Freshness,
    PatternLibrary, PlayerInfo, PlayerState, UpdateConfig,
};

const NSIG_LINE: &str =
    "Mn=function(a){var b=a.split(\"\"),c=g[1];if(typeof g===\"undefined\")return a;return b.join(\"\")};\n";

fn bundle() -> String {
    let mut s = String::new();
    s += "'use strict';var g=\"a,b,c\".split(\",\");\n";
    s += "var Xy={ab:function(a,b){a.splice(0,b)},\ncd:function(a){a.reverse()}};\n";
    s += "Sf=function(a){a=a.split(\"\");Xy.ab(a,1);Xy.cd(a);return a.join(\"\")};\n";
    s += "var Nq=[Mn];\n";
    s += NSIG_LINE;
    s += "q=String.fromCharCode(110),r=s.get(t))&&(u=Nq[0](u);\n";
    s += "c&&(d=Sf(decodeURIComponent(e)));\n";
    s += "signatureTimestamp:19834,\n";
    s
}

const EXPECTED_NSIG: &str = "function decrypt_nsig(a){var g=\"a,b,c\".split(\",\"); var b=a.split(\"\"),c=g[1];return b.join(\"\")};";

const EXPECTED_SIG: &str = "var Sf;var g=\"a,b,c\".split(\",\");var Xy={ab:function(a,b){a.splice(0,b)},\ncd:function(a){a.reverse()}};Sf=function(a){a=a.split(\"\");Xy.ab(a,1);Xy.cd(a);return a.join(\"\")}";

const PAGE: &str = "<script src=\"/s/player/1a2b3c4d/player_ias.vflset/en_US/base.js\"></script>";

fn open_config() -> UpdateConfig {
    UpdateConfig { forced_player_id: 0, update_disabled: false, delegated: false }
}

#[test]
fn escape_marks_each_dollar() {
    assert_eq!(escape_dollars_in("a$b$"), "a\\$b\\$");
    assert_eq!(escape_dollars_in("plain"), "plain");
    assert_eq!(escape_dollars_in(""), "");
}

#[test]
fn nth_field_picks_comma_separated_piece() {
    assert_eq!(nth_field("Mn,xY,$q", 1), Some("xY".to_string()));
    assert_eq!(nth_field("Mn,xY,$q", 2), Some("$q".to_string()));
    assert_eq!(nth_field("Mn,xY,$q", 3), None);
    assert_eq!(nth_field("", 0), Some(String::new()));
    assert_eq!(nth_field("a,,b", 1), Some(String::new()));
}

#[test]
fn parse_number_reads_decimal_and_hex() {
    assert_eq!(parse_number("19834", 10), Some(19834));
    assert_eq!(parse_number("1a2B", 16), Some(0x1a2b));
    assert_eq!(parse_number("", 10), None);
    assert_eq!(parse_number("12x", 10), None);
    assert_eq!(parse_number("1a", 10), None);
    assert_eq!(parse_number("18446744073709551615", 10), Some(u64::MAX));
    assert_eq!(parse_number("18446744073709551616", 10), None);
}

#[test]
fn replace_literal_removes_each_occurrence() {
    assert_eq!(replace_all_literal("abXabYab", "ab", ""), "XY");
    assert_eq!(replace_all_literal("aaa", "aa", "b"), "ba");
    assert_eq!(replace_all_literal("none", "zz", "q"), "none");
}

#[test]
fn bundle_url_has_eight_hex_digits() {
    assert_eq!(hex8_of(0xab), "000000ab");
    assert_eq!(hex8_of(0xdeadbeef), "deadbeef");
    assert_eq!(
        player_js_url(0x1a2b3c4d),
        "https://www.youtube.com/s/player/1a2b3c4d/player_ias.vflset/en_US/base.js"
    );
}

#[test]
fn override_settings_are_read() {
    assert_eq!(player_id_forced("0"), Some(0));
    assert_eq!(player_id_forced("1a2b3c4d"), Some(0x1a2b3c4d));
    assert_eq!(player_id_forced("123456789"), None);
    assert_eq!(player_id_forced("zz"), None);
    assert!(player_id_update_disabled("1"));
    assert!(!player_id_update_disabled("0"));
    assert!(!player_id_update_disabled("11"));
}

#[test]
fn player_id_is_found_in_reference_page() {
    let lib = PatternLibrary::standard();
    assert_eq!(player_id_from_page(&lib, PAGE), Ok(0x1a2b3c4d));
    assert_eq!(
        player_id_from_page(&lib, "<html>no player here</html>"),
        Err(FetchUpdateStatus::CannotMatchPlayerID)
    );
}

#[test]
fn override_wins_over_reference_page() {
    assert_eq!(identity_source(0x55), IdentitySource::Forced(0x55));
    assert_eq!(identity_source(0), IdentitySource::ReferencePage);
    let lib = PatternLibrary::standard();
    let cfg = UpdateConfig { forced_player_id: 0x77, update_disabled: false, delegated: false };
    let js = bundle();
    let mut a = PlayerInfo::new();
    let mut b = PlayerInfo::new();
    let mut c = PlayerInfo::new();
    assert_eq!(apply_update(&mut a, &lib, &cfg, None, Some(&js), 0, 5), Ok(()));
    assert_eq!(apply_update(&mut b, &lib, &cfg, Some(PAGE), Some(&js), 0, 5), Ok(()));
    assert_eq!(apply_update(&mut c, &lib, &cfg, Some("garbage"), Some(&js), 0, 5), Ok(()));
    assert_eq!(a.player_id(), 0x77);
    assert_eq!(b.player_id(), 0x77);
    assert_eq!(c.player_id(), 0x77);
}

#[test]
fn global_var_is_found_after_strict_prologue() {
    let lib = PatternLibrary::standard();
    let (code, name, value) = extract_player_js_global_var(&lib, &bundle()).unwrap();
    assert_eq!(code, "var g=\"a,b,c\".split(\",\")");
    assert_eq!(name, "g");
    assert_eq!(value, "\"a,b,c\".split(\",\")");
    assert!(extract_player_js_global_var(&lib, "var g=1;").is_none());
}

#[test]
fn fixup_inlines_global_and_drops_guard() {
    let lib = PatternLibrary::standard();
    let code = "function decrypt_nsig(a){var b=a.split(\"\"),c=g[1];if(typeof g===\"undefined\")return a;return b.join(\"\")};";
    let js = "'use strict';var g=\"a,b,c\".split(\",\");function other(){}";
    let out = fixup_nsig_jscode(&lib, code, js).unwrap();
    assert_eq!(out, EXPECTED_NSIG);
    let decl = out.find("var g=\"a,b,c\".split(\",\")").unwrap();
    let first = out.find("var b=").unwrap();
    assert!(decl < first);
    assert!(!out.contains("typeof"));
}

#[test]
fn fixup_without_global_drops_plain_guard() {
    let lib = PatternLibrary::standard();
    let code = "function decrypt_nsig(a){var b=1;if(typeof q===\"undefined\")return a;return b};";
    let out = fixup_nsig_jscode(&lib, code, "no prologue here").unwrap();
    assert_eq!(out, "function decrypt_nsig(a){var b=1;return b};");
}

#[test]
fn fallback_uses_second_array_candidate() {
    let lib = PatternLibrary::standard();
    let js = bundle();
    assert_eq!(first_matching(&lib.nsig_arrays, &js), Some(1));
    assert_eq!(extract_nsig_function_name(&lib, &js), Some("Mn".to_string()));
}

#[test]
fn first_matching_prefers_earliest_candidate() {
    let pats = vec!["(zz)".to_string(), "(b)".to_string(), "(a)".to_string()];
    assert_eq!(first_matching(&pats, "ab"), Some(1));
    assert_eq!(first_matching(&pats, "qq"), None);
    assert_eq!(first_matching(&Vec::new(), "qq"), None);
}

#[test]
fn dollar_names_match_their_own_declaration() {
    let lib = PatternLibrary::standard();
    let js = "var N$q=[xx,M$n];\nM$n=function(a){var b=a.split(\"\");return b.join(\"\")};\nq=String.fromCharCode(110),r=s.get(t))&&(u=N$q[1](u);\n";
    assert_eq!(extract_nsig_function_name(&lib, js), Some("M$n".to_string()));
    let code = extract_nsig_code(&lib, js, "M$n").unwrap();
    assert_eq!(code, "function decrypt_nsig(a){var b=a.split(\"\");return b.join(\"\")};");
}

#[test]
fn nsig_code_is_extracted_and_fixed() {
    let lib = PatternLibrary::standard();
    assert_eq!(extract_nsig_code(&lib, &bundle(), "Mn"), Some(EXPECTED_NSIG.to_string()));
    assert_eq!(extract_nsig_code(&lib, &bundle(), "Absent"), None);
}

#[test]
fn signature_code_is_assembled_in_order() {
    let lib = PatternLibrary::standard();
    let (code, name) = extract_signature_code(&lib, &bundle()).unwrap();
    assert_eq!(name, "Sf");
    assert_eq!(code, EXPECTED_SIG);
    assert_eq!(extract_signature_timestamp(&lib, &bundle()), Some(19834));
    assert_eq!(extract_signature_timestamp(&lib, "sts:x"), None);
}

#[test]
fn whole_bundle_extracts() {
    let lib = PatternLibrary::standard();
    let data = extract_player_data(&lib, &bundle()).unwrap();
    assert_eq!(data.nsig_function_code, EXPECTED_NSIG);
    assert_eq!(data.sig_function_code, EXPECTED_SIG);
    assert_eq!(data.sig_function_name, "Sf");
    assert_eq!(data.signature_timestamp, 19834);
}

#[test]
fn run_commits_whole_group() {
    let lib = PatternLibrary::standard();
    let mut info = PlayerInfo::new();
    assert_eq!(info.has_player(), PlayerState::Unset);
    let r = apply_update(&mut info, &lib, &open_config(), Some(PAGE), Some(&bundle()), 0, 100);
    assert_eq!(r, Ok(()));
    assert_eq!(info.player_id(), 0x1a2b3c4d);
    assert_eq!(info.has_player(), PlayerState::Populated);
    assert_eq!(info.nsig_function_code(), EXPECTED_NSIG);
    assert_eq!(info.sig_function_code(), EXPECTED_SIG);
    assert_eq!(info.sig_function_name(), "Sf");
    assert_eq!(info.signature_timestamp(), 19834);
    assert_eq!(info.last_update(), 100);
}

#[test]
fn second_run_reports_already_updated() {
    let lib = PatternLibrary::standard();
    let js = bundle();
    let mut info = PlayerInfo::new();
    assert_eq!(apply_update(&mut info, &lib, &open_config(), Some(PAGE), Some(&js), 0, 100), Ok(()));
    let nsig = info.nsig_function_code().to_string();
    let sig = info.sig_function_code().to_string();
    let r = apply_update(&mut info, &lib, &open_config(), Some(PAGE), Some(&js), 0, 200);
    assert_eq!(r, Err(FetchUpdateStatus::PlayerAlreadyUpdated));
    assert_eq!(info.nsig_function_code(), nsig);
    assert_eq!(info.sig_function_code(), sig);
    assert_eq!(info.sig_function_name(), "Sf");
    assert_eq!(info.last_update(), 200);
}

#[test]
fn no_matching_ending_fails_and_keeps_cache() {
    let lib = PatternLibrary::standard();
    let js = "var Nq=[Mn];\nMn=function(a){return a}\nq=String.fromCharCode(110),r=s.get(t))&&(u=Nq[0](u)\n";
    assert_eq!(extract_nsig_function_name(&lib, js), Some("Mn".to_string()));
    assert_eq!(extract_nsig_code(&lib, js, "Mn"), None);
    let mut info = PlayerInfo::new();
    let r = apply_update(&mut info, &lib, &open_config(), Some(PAGE), Some(js), 0, 100);
    assert_eq!(r, Err(FetchUpdateStatus::NsigRegexCompileFailed));
    assert_eq!(info.player_id(), 0);
    assert_eq!(info.has_player(), PlayerState::Unset);
    assert_eq!(info.nsig_function_code(), "");
    assert_eq!(info.last_update(), 0);
}

#[test]
fn fetch_failures_are_reported() {
    let lib = PatternLibrary::standard();
    let mut info = PlayerInfo::new();
    assert_eq!(
        apply_update(&mut info, &lib, &open_config(), None, None, 0, 1),
        Err(FetchUpdateStatus::CannotFetchTestVideo)
    );
    assert_eq!(
        apply_update(&mut info, &lib, &open_config(), Some("nothing"), None, 0, 1),
        Err(FetchUpdateStatus::CannotMatchPlayerID)
    );
    assert_eq!(
        apply_update(&mut info, &lib, &open_config(), Some(PAGE), None, 0, 1),
        Err(FetchUpdateStatus::CannotFetchPlayerJS)
    );
    assert_eq!(info.player_id(), 0);
    assert_eq!(info.last_update(), 0);
}

#[test]
fn delegated_run_installs_timestamp_only() {
    let lib = PatternLibrary::standard();
    let cfg = UpdateConfig { forced_player_id: 0, update_disabled: false, delegated: true };
    let mut info = PlayerInfo::new();
    assert_eq!(apply_update(&mut info, &lib, &cfg, Some(PAGE), None, 4242, 9), Ok(()));
    assert_eq!(info.player_id(), 0x1a2b3c4d);
    assert_eq!(info.signature_timestamp(), 4242);
    assert_eq!(info.has_player(), PlayerState::Populated);
    assert_eq!(info.nsig_function_code(), "");
}

#[test]
fn filled_cache_is_left_alone_when_settings_say_so() {
    let lib = PatternLibrary::standard();
    let mut info = PlayerInfo::new();
    info.commit_delegated(0x10, 1, 1);
    let locked = UpdateConfig { forced_player_id: 0, update_disabled: true, delegated: false };
    assert_eq!(check_freshness(&info, &locked, 0x1a2b3c4d), Freshness::Skip);
    assert_eq!(apply_update(&mut info, &lib, &locked, Some(PAGE), None, 0, 50), Ok(()));
    assert_eq!(info.player_id(), 0x10);
    assert_eq!(info.last_update(), 1);
    let forced = UpdateConfig { forced_player_id: 0x99, update_disabled: false, delegated: false };
    assert_eq!(check_freshness(&info, &forced, 0x99), Freshness::Skip);
    assert_eq!(check_freshness(&info, &open_config(), 0x10), Freshness::AlreadyUpdated);
    assert_eq!(check_freshness(&info, &open_config(), 0x11), Freshness::FetchBundle);
    let fresh = PlayerInfo::new();
    assert_eq!(check_freshness(&fresh, &locked, 0x11), Freshness::FetchBundle);
}

#[test]
fn mark_current_moves_only_the_time() {
    let mut info = PlayerInfo::new();
    info.mark_current(77);
    assert_eq!(info.last_update(), 77);
    assert_eq!(info.player_id(), 0);
    assert_eq!(info.has_player(), PlayerState::Unset);
}
