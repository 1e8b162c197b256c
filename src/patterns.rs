//! The pattern library: for each extraction goal, the structural patterns
//! that locate it in a player bundle, candidates listed in the order tried.
use vstd::prelude::*;
use vstd::string::StringExecFns;
use crate::matcher::views;

verus! {

/// The nsig array indexed right after a `.get("n")` test.
pub const NSIG_ARRAY_GET_N: &'static str = r#"\.get\("n"\)\)&&\(b=([a-zA-Z0-9_$]+)\[(\d+)\]\([a-zA-Z0-9_$]+\)"#;

/// The nsig array indexed after the name `n` is built from its character code.
pub const NSIG_ARRAY_FROM_CHAR_CODE: &'static str = r#"[a-zA-Z0-9_$]+=String\.fromCharCode\(110\),[a-zA-Z0-9_$]+=[a-zA-Z0-9_$]+\.get\([a-zA-Z0-9_$]+\)\)&&\([a-zA-Z0-9_$]+=([a-zA-Z0-9_$]+)\[(\d+)\]"#;

/// The nsig array indexed in an assignment that is followed by a `.set(` call.
pub const NSIG_ARRAY_SET_CALL: &'static str = r#";\s*[a-zA-Z0-9_$]+\s*=\s*([a-zA-Z0-9_$]+)\[(\d+)\]\([a-zA-Z0-9_$]+\)\s*,\s*[a-zA-Z0-9_$]+\.set\((?:"n"|[a-zA-Z0-9_$]+)\s*,"#;

/// An nsig function that ends by returning a joined array.
pub const NSIG_ENDING_JOIN: &'static str = r#"=\s*function(\([a-zA-Z0-9_$]+\)\{.+?return\s+[a-zA-Z0-9_$]+\.join\(""\)\s*\};)"#;

/// An nsig function whose last block is followed by a return statement.
pub const NSIG_ENDING_RETURN: &'static str = r#"=\s*function(\([a-zA-Z0-9_$]+\)\{.+?\}\s*return\s+[^}]+\};)"#;

/// An nsig function that ends with `};` at the end of a line.
pub const NSIG_ENDING_NEWLINE: &'static str = r#"=\s*function(\([a-zA-Z0-9_$]+\)\{.+?\};)\n"#;

/// The player identifier in the path of the bundle that a page loads.
pub const PLAYER_ID: &'static str = r#"/s/player/([0-9a-fA-F]{8})/"#;

/// The name of the signature function, called on a decoded URI component.
pub const SIGNATURE_FUNCTION: &'static str = r#"\b[a-zA-Z0-9_$]+&&\([a-zA-Z0-9_$]+=([a-zA-Z0-9_$]{2,})\(decodeURIComponent\([a-zA-Z0-9_$]+\)\)"#;

/// The helper object whose methods the signature function calls.
pub const HELPER_OBJECT: &'static str = r#";([A-Za-z0-9_$]{2,})\.\w+\("#;

/// The signature timestamp.
pub const SIGNATURE_TIMESTAMP: &'static str = r#"(?:signatureTimestamp|sts):(\d+)"#;

/// A global array declared right after the strict-mode prologue, by a split string or a list of strings.
pub const GLOBAL_VAR: &'static str = r#"'use\s+strict';\s*(var\s+([a-zA-Z0-9_$]+)\s*=\s*((?:"[^"\\]*(?:\\.[^"\\]*)*"|'[^'\\]*(?:\\.[^'\\]*)*')\.split\((?:"[^"\\]*(?:\\.[^"\\]*)*"|'[^'\\]*(?:\\.[^'\\]*)*')\)|\[(?:(?:"[^"\\]*(?:\\.[^"\\]*)*"|'[^'\\]*(?:\\.[^'\\]*)*')\s*,?\s*)*\]))[;,]"#;

/// The parameter of a one-parameter function declaration.
pub const FUNCTION_PARAM: &'static str = r#"function\s+[a-zA-Z0-9_$]+\s*\(([a-zA-Z0-9_$]+)\)"#;

/// The start of the early-return guard pattern, before the global array's name.
pub const GUARD_HEAD: &'static str = r#";\s*if\s*\(\s*typeof\s+[a-zA-Z0-9_$]+\s*===?\s*(?:"undefined"|'undefined'|"#;

/// The end of the early-return guard pattern, after the global array's name.
pub const GUARD_TAIL: &'static str = r#"\[\d+\])\s*\)\s*return\s+\w+;"#;

/// The early-return guard that tests only for `undefined`.
pub const PLAIN_GUARD: &'static str = r#";\s*if\s*\(\s*typeof\s+[a-zA-Z0-9_$]+\s*===?\s*"undefined"\s*\)\s*return\s+\w+;"#;

/// Patterns for every extraction step.
///
/// Each candidate of `nsig_arrays` captures the array's name in group 1 and
/// the index into it in group 2. Each candidate of `nsig_endings` follows
/// the escaped name of the nsig function and captures, in group 1, its text
/// from the parameter list on. The other patterns capture what they look for
/// in group 1, `global_var` the whole declaration in group 1 and the
/// variable's name in group 2. `guard_head` and `guard_tail` surround the
/// escaped name of the global array in the pattern of the early-return guard;
/// `plain_guard` is that guard's pattern when there is no global array.
pub struct PatternLibrary {
    pub player_id: String,
    pub nsig_arrays: Vec<String>,
    pub nsig_endings: Vec<String>,
    pub signature_function: String,
    pub helper_object: String,
    pub signature_timestamp: String,
    pub global_var: String,
    pub function_param: String,
    pub guard_head: String,
    pub guard_tail: String,
    pub plain_guard: String,
}

impl PatternLibrary {
    /// The patterns that fit the bundles served today.
    pub fn standard() -> (r: PatternLibrary)
        ensures
            r.player_id@ == PLAYER_ID@,
            views(r.nsig_arrays@) == seq![
                NSIG_ARRAY_GET_N@,
                NSIG_ARRAY_FROM_CHAR_CODE@,
                NSIG_ARRAY_SET_CALL@,
            ],
            views(r.nsig_endings@) == seq![
                NSIG_ENDING_JOIN@,
                NSIG_ENDING_RETURN@,
                NSIG_ENDING_NEWLINE@,
            ],
            r.signature_function@ == SIGNATURE_FUNCTION@,
            r.helper_object@ == HELPER_OBJECT@,
            r.signature_timestamp@ == SIGNATURE_TIMESTAMP@,
            r.global_var@ == GLOBAL_VAR@,
            r.function_param@ == FUNCTION_PARAM@,
            r.guard_head@ == GUARD_HEAD@,
            r.guard_tail@ == GUARD_TAIL@,
            r.plain_guard@ == PLAIN_GUARD@,
    {
        let mut nsig_arrays: Vec<String> = Vec::new();
        nsig_arrays.push(String::from_str(NSIG_ARRAY_GET_N));
        nsig_arrays.push(String::from_str(NSIG_ARRAY_FROM_CHAR_CODE));
        nsig_arrays.push(String::from_str(NSIG_ARRAY_SET_CALL));
        let mut nsig_endings: Vec<String> = Vec::new();
        nsig_endings.push(String::from_str(NSIG_ENDING_JOIN));
        nsig_endings.push(String::from_str(NSIG_ENDING_RETURN));
        nsig_endings.push(String::from_str(NSIG_ENDING_NEWLINE));
        PatternLibrary {
            player_id: String::from_str(PLAYER_ID),
            nsig_arrays,
            nsig_endings,
            signature_function: String::from_str(SIGNATURE_FUNCTION),
            helper_object: String::from_str(HELPER_OBJECT),
            signature_timestamp: String::from_str(SIGNATURE_TIMESTAMP),
            global_var: String::from_str(GLOBAL_VAR),
            function_param: String::from_str(FUNCTION_PARAM),
            guard_head: String::from_str(GUARD_HEAD),
            guard_tail: String::from_str(GUARD_TAIL),
            plain_guard: String::from_str(PLAIN_GUARD),
        }
    }
}

} // verus!
