//! Extraction of the decoding code from a player bundle: the nsig function,
//! located through an array of function names; its fixup so that it stands
//! alone; the signature function with its helper object; and the signature
//! timestamp.
use vstd::prelude::*;
use vstd::string::StringExecFns;
use crate::matcher::{
    capture, first_match, first_matching, opt_view, regex_capture, regex_replace_all,
    replace_all, views,
};
use crate::patterns::PatternLibrary;
use crate::player::FetchUpdateStatus;
use crate::text::{
    escape_dollars, escape_dollars_in, nth_field, parse_number, parsed_number, replace_all_literal,
    replace_literal, split_commas,
};

verus! {

/// The global array declaration that follows the strict-mode prologue of the
/// bundle: its whole text, the variable's name and the assigned value.
pub open spec fn global_var_of(lib: &PatternLibrary, js: Seq<char>) -> Option<
    (Seq<char>, Seq<char>, Seq<char>),
> {
    match (
        regex_capture(lib.global_var@, js, 1),
        regex_capture(lib.global_var@, js, 2),
        regex_capture(lib.global_var@, js, 3),
    ) {
        (Some(code), Some(name), Some(value)) => Some((code, name, value)),
        _ => None,
    }
}

/// Finds the global array declaration of the bundle, as (declaration, name, value).
pub fn extract_player_js_global_var(lib: &PatternLibrary, jscode: &str) -> (r: Option<
    (String, String, String),
>)
    ensures
        match r {
            Some((code, name, value)) => global_var_of(lib, jscode@) == Some(
                (code@, name@, value@),
            ),
            None => global_var_of(lib, jscode@) is None,
        },
{
    let code = capture(lib.global_var.as_str(), jscode, 1)?;
    let name = capture(lib.global_var.as_str(), jscode, 2)?;
    let value = capture(lib.global_var.as_str(), jscode, 3)?;
    Some((code, name, value))
}

/// The opening of the extracted nsig function, up to its body.
pub open spec fn nsig_header(param: Seq<char>) -> Seq<char> {
    "function decrypt_nsig("@ + param + "){"@
}

/// The parameter name of the first function declared in `code`, `a` if there is none.
pub open spec fn param_name_of(lib: &PatternLibrary, code: Seq<char>) -> Seq<char> {
    match regex_capture(lib.function_param@, code, 1) {
        Some(p) => p,
        None => "a"@,
    }
}

/// The pattern of the early-return guard that may also test an element of the global array `name`.
pub open spec fn guard_pattern(lib: &PatternLibrary, name: Seq<char>) -> Seq<char> {
    lib.guard_head@ + escape_dollars(name) + lib.guard_tail@
}

/// The nsig function `code`, made independent of the bundle `js`: the global
/// array's declaration goes first in its body, and each early-return guard
/// becomes a bare `;`. None when the guard's pattern does not compile.
pub open spec fn fixed_nsig_code(lib: &PatternLibrary, code: Seq<char>, js: Seq<char>) -> Option<
    Seq<char>,
> {
    match global_var_of(lib, js) {
        Some((global, name, _)) => {
            let header = nsig_header(param_name_of(lib, code));
            regex_replace_all(
                guard_pattern(lib, name),
                header + global + "; "@ + replace_literal(code, header, ""@),
                ";"@,
            )
        },
        None => regex_replace_all(lib.plain_guard@, code, ";"@),
    }
}

/// Rewrites an extracted nsig function so that it can run on its own.
pub fn fixup_nsig_jscode(lib: &PatternLibrary, jscode: &str, player_javascript: &str) -> (r:
    Option<String>)
    ensures
        opt_view(r) == fixed_nsig_code(lib, jscode@, player_javascript@),
{
    let param = match capture(lib.function_param.as_str(), jscode, 1) {
        Some(p) => p,
        None => String::from_str("a"),
    };
    match extract_player_js_global_var(lib, player_javascript) {
        Some((global, name, _)) => {
            let mut header = String::from_str("function decrypt_nsig(");
            header.append(param.as_str());
            header.append("){");
            proof {
                reveal_strlit("function decrypt_nsig(");
            }
            let rest = replace_all_literal(jscode, header.as_str(), "");
            let mut body = header;
            body.append(global.as_str());
            body.append("; ");
            body.append(rest.as_str());
            let mut guard = lib.guard_head.clone();
            let escaped = escape_dollars_in(name.as_str());
            guard.append(escaped.as_str());
            guard.append(lib.guard_tail.as_str());
            replace_all(guard.as_str(), body.as_str(), ";")
        },
        None => replace_all(lib.plain_guard.as_str(), jscode, ";"),
    }
}

/// The pattern of the literal of the array `name`, capturing its elements.
pub open spec fn array_pattern(name: Seq<char>) -> Seq<char> {
    "var "@ + escape_dollars(name) + "\\s*=\\s*\\[(.+?)][;,]"@
}

/// The name of the nsig function: the first array pattern that matches gives
/// the array's name and an index, and the element at that index of the
/// array's literal is the name.
pub open spec fn nsig_function_name_of(lib: &PatternLibrary, js: Seq<char>) -> Option<Seq<char>> {
    let ps = views(lib.nsig_arrays@);
    match first_match(ps, js) {
        None => None,
        Some(i) => match (regex_capture(ps[i], js, 1), regex_capture(ps[i], js, 2)) {
            (Some(name), Some(idx)) => match parsed_number(idx, 10) {
                Some(k) => match regex_capture(array_pattern(name), js, 1) {
                    Some(content) => if k < split_commas(content).len() {
                        Some(split_commas(content)[k as int])
                    } else {
                        None
                    },
                    None => None,
                },
                None => None,
            },
            _ => None,
        },
    }
}

/// Finds the name of the nsig function in the bundle.
pub fn extract_nsig_function_name(lib: &PatternLibrary, js: &str) -> (r: Option<String>)
    ensures
        opt_view(r) == nsig_function_name_of(lib, js@),
{
    let i = first_matching(&lib.nsig_arrays, js)?;
    let ghost ps = views(lib.nsig_arrays@);
    assert(ps[i as int] == lib.nsig_arrays@[i as int]@);
    let name = capture(lib.nsig_arrays[i].as_str(), js, 1)?;
    let idx = capture(lib.nsig_arrays[i].as_str(), js, 2)?;
    let k = parse_number(idx.as_str(), 10)?;
    let mut pattern = String::from_str("var ");
    let escaped = escape_dollars_in(name.as_str());
    pattern.append(escaped.as_str());
    pattern.append("\\s*=\\s*\\[(.+?)][;,]");
    let content = capture(pattern.as_str(), js, 1)?;
    nth_field(content.as_str(), k)
}

/// The patterns that locate the function `name`, one for each ending.
pub open spec fn ending_patterns(name: Seq<char>, endings: Seq<Seq<char>>) -> Seq<Seq<char>> {
    Seq::new(endings.len(), |i: int| "(?ms)"@ + escape_dollars(name) + endings[i])
}

/// The code of the nsig function `name`, after the fixup: the first ending
/// whose pattern matches gives the function's text after its name.
pub open spec fn nsig_code_of(lib: &PatternLibrary, js: Seq<char>, name: Seq<char>) -> Option<
    Seq<char>,
> {
    let ps = ending_patterns(name, views(lib.nsig_endings@));
    match first_match(ps, js) {
        None => None,
        Some(i) => match regex_capture(ps[i], js, 1) {
            Some(body) => fixed_nsig_code(lib, "function decrypt_nsig"@ + body, js),
            None => None,
        },
    }
}

/// Extracts the nsig function `name` from the bundle, ready to run on its own.
pub fn extract_nsig_code(lib: &PatternLibrary, js: &str, name: &str) -> (r: Option<String>)
    ensures
        opt_view(r) == nsig_code_of(lib, js@, name@),
{
    let ghost want = ending_patterns(name@, views(lib.nsig_endings@));
    let escaped = escape_dollars_in(name);
    let mut patterns: Vec<String> = Vec::new();
    let mut i: usize = 0;
    while i < lib.nsig_endings.len()
        invariant
            i <= lib.nsig_endings.len(),
            escaped@ == escape_dollars(name@),
            want == ending_patterns(name@, views(lib.nsig_endings@)),
            patterns.len() == i,
            views(patterns@) == want.subrange(0, i as int),
        decreases lib.nsig_endings.len() - i,
    {
        let mut p = String::from_str("(?ms)");
        p.append(escaped.as_str());
        p.append(lib.nsig_endings[i].as_str());
        let ghost old_patterns = patterns@;
        patterns.push(p);
        assert(views(lib.nsig_endings@)[i as int] == lib.nsig_endings@[i as int]@);
        assert forall|j: int| 0 <= j < i + 1 implies views(patterns@)[j] == want[j] by {
            assert(views(patterns@)[j] == patterns@[j]@);
            if j < i {
                assert(patterns@[j] == old_patterns[j]);
                assert(views(old_patterns)[j] == want.subrange(0, i as int)[j]);
            }
        }
        assert(views(patterns@) =~= want.subrange(0, i + 1));
        i = i + 1;
    }
    assert(views(patterns@) =~= want);
    let k = first_matching(&patterns, js)?;
    let body = capture(patterns[k].as_str(), js, 1)?;
    let mut code = String::from_str("function decrypt_nsig");
    code.append(body.as_str());
    fixup_nsig_jscode(lib, code.as_str(), js)
}

/// The pattern of the assignment of the signature function `name`.
pub open spec fn sig_body_pattern(name: Seq<char>) -> Seq<char> {
    escape_dollars(name) + "=function\\([a-zA-Z0-9_]+\\)\\{.+?\\}"@
}

/// The pattern of the literal of the helper object `name`.
pub open spec fn helper_body_pattern(name: Seq<char>) -> Seq<char> {
    "(var "@ + escape_dollars(name) + "=\\{(?:.|\\n)+?\\}\\};)"@
}

/// The signature decoder's code and its function's name: a declaration of
/// the name, the global array's declaration if there is one, the helper
/// object's literal, then the function's assignment.
pub open spec fn signature_code_of(lib: &PatternLibrary, js: Seq<char>) -> Option<
    (Seq<char>, Seq<char>),
> {
    match regex_capture(lib.signature_function@, js, 1) {
        None => None,
        Some(name) => match regex_capture(sig_body_pattern(name), js, 0) {
            None => None,
            Some(body) => match regex_capture(lib.helper_object@, body, 1) {
                None => None,
                Some(helper) => match regex_capture(helper_body_pattern(helper), js, 0) {
                    None => None,
                    Some(helper_body) => {
                        let global = match global_var_of(lib, js) {
                            Some((g, _, _)) => g + ";"@,
                            None => Seq::empty(),
                        };
                        Some(("var "@ + name + ";"@ + global + helper_body + body, name))
                    },
                },
            },
        },
    }
}

/// Extracts the signature decoder's code and its function's name.
pub fn extract_signature_code(lib: &PatternLibrary, js: &str) -> (r: Option<(String, String)>)
    ensures
        match r {
            Some((code, name)) => signature_code_of(lib, js@) == Some((code@, name@)),
            None => signature_code_of(lib, js@) is None,
        },
{
    let name = capture(lib.signature_function.as_str(), js, 1)?;
    let escaped = escape_dollars_in(name.as_str());
    let mut body_pattern = escaped;
    body_pattern.append("=function\\([a-zA-Z0-9_]+\\)\\{.+?\\}");
    let body = capture(body_pattern.as_str(), js, 0)?;
    let helper = capture(lib.helper_object.as_str(), body.as_str(), 1)?;
    let mut helper_pattern = String::from_str("(var ");
    let escaped_helper = escape_dollars_in(helper.as_str());
    helper_pattern.append(escaped_helper.as_str());
    helper_pattern.append("=\\{(?:.|\\n)+?\\}\\};)");
    let helper_body = capture(helper_pattern.as_str(), js, 0)?;
    let mut code = String::from_str("var ");
    code.append(name.as_str());
    code.append(";");
    let ghost before = code@;
    match extract_player_js_global_var(lib, js) {
        Some((global, _, _)) => {
            code.append(global.as_str());
            code.append(";");
            assert(code@ =~= before + (global@ + ";"@));
        },
        None => {
            assert(code@ =~= before + Seq::<char>::empty());
        },
    }
    code.append(helper_body.as_str());
    code.append(body.as_str());
    Some((code, name))
}

/// The signature timestamp written in the bundle.
pub open spec fn timestamp_of(lib: &PatternLibrary, js: Seq<char>) -> Option<u64> {
    match regex_capture(lib.signature_timestamp@, js, 1) {
        Some(digits) => parsed_number(digits, 10),
        None => None,
    }
}

/// Reads the signature timestamp of the bundle.
pub fn extract_signature_timestamp(lib: &PatternLibrary, js: &str) -> (r: Option<u64>)
    ensures
        r == timestamp_of(lib, js@),
{
    let digits = capture(lib.signature_timestamp.as_str(), js, 1)?;
    parse_number(digits.as_str(), 10)
}

/// Everything that one update installs in the cache, taken from one bundle.
pub struct PlayerData {
    pub nsig_function_code: String,
    pub sig_function_code: String,
    pub sig_function_name: String,
    pub signature_timestamp: u64,
}

impl PlayerData {
    /// The nsig code, the signature code, the signature function's name and the timestamp.
    pub open spec fn view(&self) -> (Seq<char>, Seq<char>, Seq<char>, u64) {
        (
            self.nsig_function_code@,
            self.sig_function_code@,
            self.sig_function_name@,
            self.signature_timestamp,
        )
    }
}

/// What one bundle yields, when every step finds what it looks for.
pub open spec fn player_data_of(lib: &PatternLibrary, js: Seq<char>) -> Option<
    (Seq<char>, Seq<char>, Seq<char>, u64),
> {
    match nsig_function_name_of(lib, js) {
        None => None,
        Some(name) => match nsig_code_of(lib, js, name) {
            None => None,
            Some(nsig) => match signature_code_of(lib, js) {
                None => None,
                Some((sig, sig_name)) => match timestamp_of(lib, js) {
                    None => None,
                    Some(ts) => Some((nsig, sig, sig_name, ts)),
                },
            },
        },
    }
}

/// Runs every extraction step on the bundle; the first step that finds
/// nothing fails the whole extraction.
pub fn extract_player_data(lib: &PatternLibrary, js: &str) -> (r: Result<
    PlayerData,
    FetchUpdateStatus,
>)
    ensures
        match r {
            Ok(d) => player_data_of(lib, js@) == Some(d.view()),
            Err(e) => e == FetchUpdateStatus::NsigRegexCompileFailed && player_data_of(
                lib,
                js@,
            ) is None,
        },
{
    let name = match extract_nsig_function_name(lib, js) {
        Some(n) => n,
        None => return Err(FetchUpdateStatus::NsigRegexCompileFailed),
    };
    let nsig = match extract_nsig_code(lib, js, name.as_str()) {
        Some(c) => c,
        None => return Err(FetchUpdateStatus::NsigRegexCompileFailed),
    };
    let (sig, sig_name) = match extract_signature_code(lib, js) {
        Some(p) => p,
        None => return Err(FetchUpdateStatus::NsigRegexCompileFailed),
    };
    let ts = match extract_signature_timestamp(lib, js) {
        Some(t) => t,
        None => return Err(FetchUpdateStatus::NsigRegexCompileFailed),
    };
    Ok(
        PlayerData {
            nsig_function_code: nsig,
            sig_function_code: sig,
            sig_function_name: sig_name,
            signature_timestamp: ts,
        },
    )
}

} // verus!
