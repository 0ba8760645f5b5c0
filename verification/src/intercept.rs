//! The file-open interceptor.
//!
//! Both file-open entry points funnel into one handler: the path argument is
//! decoded to characters, cleaned lexically, and looked up in the
//! replacement table. Whether or not a replacement exists, the open is
//! forwarded through the wide-string trampoline, with the other six
//! arguments unchanged; a replaced open is also logged. The handler holds
//! the reentrancy guard from before the lookup until the trampoline call is
//! done, so an open issued from inside it cannot re-enter it.

use vstd::prelude::*;
use vstd::string::StringExecFns;
use crate::detour::FileHooks;
use crate::path_norm::normalize;
use crate::path_norm::normalize_spec;
use crate::table::ReplacementTable;

verus! {

/// Characters that `String::from_utf16_lossy` decodes from these code
/// units; the result depends on the units alone.
pub uninterp spec fn utf16_lossy_of(units: Seq<u16>) -> Seq<char>;

/// Characters that `String::from_utf8_lossy` decodes from these bytes; the
/// result depends on the bytes alone.
pub uninterp spec fn utf8_lossy_of(bytes: Seq<u8>) -> Seq<char>;

/// Code units that `str::encode_utf16` produces for these characters; the
/// result depends on the characters alone.
pub uninterp spec fn wide_units_of(s: Seq<char>) -> Seq<u16>;

/// Relies on `String::from_utf16_lossy`: decodes UTF-16, replacing
/// unpaired surrogates.
#[verifier::external_body]
fn decode_wide(units: &Vec<u16>) -> (r: String)
    ensures
        r@ == utf16_lossy_of(units@),
{
    String::from_utf16_lossy(units)
}

/// Relies on `String::from_utf8_lossy`: decodes UTF-8, replacing invalid
/// sequences.
#[verifier::external_body]
fn decode_narrow(bytes: &Vec<u8>) -> (r: String)
    ensures
        r@ == utf8_lossy_of(bytes@),
{
    String::from_utf8_lossy(bytes).into_owned()
}

/// Relies on `str::encode_utf16`: encodes the characters as UTF-16 code
/// units.
#[verifier::external_body]
fn encode_wide(s: &str) -> (r: Vec<u16>)
    ensures
        r@ == wide_units_of(s@),
{
    s.encode_utf16().collect()
}

/// The six file-open arguments that ride along unchanged beside the path.
#[derive(Clone, Copy, PartialEq, Eq, Structural, Debug)]
pub struct OpenArgs {
    /// Requested access mask.
    pub desired_access: u32,
    /// Share mode.
    pub share_mode: u32,
    /// Address of the security attributes, or zero.
    pub security_attributes: u64,
    /// Creation disposition.
    pub creation_disposition: u32,
    /// Flags and attributes.
    pub flags_and_attributes: u32,
    /// Template file handle, or zero.
    pub template: u64,
}

/// Which preempted entry point a forwarded open reaches.
#[derive(Clone, Copy, PartialEq, Eq, Structural, Debug)]
pub enum Target {
    /// The original wide-string function, through its trampoline.
    WideOriginal,
    /// The original narrow-string function, through its trampoline. The
    /// handler never produces this.
    NarrowOriginal,
}

/// What the handler asks the caller to do: one call of one original
/// function, and at most one informational log line.
#[derive(Debug)]
pub struct OpenPlan {
    /// Entry point whose original receives the call.
    pub target: Target,
    /// Path argument for the call, as nul-terminated UTF-16 code units.
    pub path_utf16: Vec<u16>,
    /// The six arguments, forwarded unchanged.
    pub args: OpenArgs,
    /// The redirection log line, present exactly when a replacement was
    /// found.
    pub log_line: Option<String>,
}

/// The path the open is forwarded with: the replacement when the table
/// binds `p`, else `p` itself.
pub open spec fn forwarded_path_spec(t: Map<Seq<char>, Seq<char>>, p: Seq<char>) -> Seq<char> {
    if t.contains_key(p) {
        t[p]
    } else {
        p
    }
}

/// The informational line logged for a redirected open.
pub open spec fn log_line_spec(orig: Seq<char>, new: Seq<char>) -> Seq<char> {
    "read to "@ + orig + " was redirected -> "@ + new
}

/// View of an optional log line.
pub open spec fn log_view(o: Option<String>) -> Option<Seq<char>> {
    match o {
        Some(l) => Some(l@),
        None => None,
    }
}

/// The plan the handler owes for normalized path `p` under table `t`:
/// forward through the wide original with the looked-up path and unchanged
/// arguments, logging exactly the redirected opens.
pub open spec fn plan_ok(
    plan: OpenPlan,
    t: Map<Seq<char>, Seq<char>>,
    p: Seq<char>,
    args: OpenArgs,
) -> bool {
    &&& plan.target == Target::WideOriginal
    &&& plan.args == args
    &&& plan.path_utf16@ == wide_units_of(forwarded_path_spec(t, p)) + seq![0u16]
    &&& match plan.log_line {
        Some(l) => t.contains_key(p) && l@ == log_line_spec(p, t[p]),
        None => !t.contains_key(p),
    }
}

/// The line logged when the open of `orig` is redirected to `new`.
pub fn log_line(orig: &String, new: &String) -> (r: String)
    ensures
        r@ == log_line_spec(orig@, new@),
{
    let mut r = String::from_str("read to ");
    r.append(orig.as_str());
    r.append(" was redirected -> ");
    r.append(new.as_str());
    r
}

/// The single normalized handler behind both file-open detours.
///
/// Takes the reentrancy guard over both file-open detours, cleans the path,
/// consults the table, and plans one forwarded call through the wide
/// original; the guard is released before returning, so the records end as
/// they began.
pub fn on_create_file(
    hooks: &mut FileHooks,
    table: &ReplacementTable,
    path: &str,
    args: OpenArgs,
) -> (plan: OpenPlan)
    requires
        old(hooks).guard_headroom(),
    ensures
        *final(hooks) == *old(hooks),
        plan_ok(plan, table@, normalize_spec(path@), args),
{
    hooks.acquire_guard();
    proof {
        // Everything below runs with both file-open detours inert on this
        // thread: an open from here reaches the original code directly.
        assert(!hooks.wide.active() && !hooks.narrow.active());
    }
    let cleaned = normalize(path);
    let looked = table.lookup(&cleaned);
    let plan = match looked {
        Some(new_path) => {
            let line = log_line(&cleaned, &new_path);
            let mut units = encode_wide(new_path.as_str());
            units.push(0);
            proof {
                assert(units@ =~= wide_units_of(new_path@) + seq![0u16]);
            }
            OpenPlan {
                target: Target::WideOriginal,
                path_utf16: units,
                args,
                log_line: Some(line),
            }
        },
        None => {
            let mut units = encode_wide(cleaned.as_str());
            units.push(0);
            proof {
                assert(units@ =~= wide_units_of(cleaned@) + seq![0u16]);
            }
            OpenPlan { target: Target::WideOriginal, path_utf16: units, args, log_line: None }
        },
    };
    hooks.release_guard();
    plan
}

/// Interception body of the wide-string file-open entry point: decode the
/// UTF-16 path argument and hand it to the normalized handler.
pub fn on_open_wide(
    hooks: &mut FileHooks,
    table: &ReplacementTable,
    path_units: &Vec<u16>,
    args: OpenArgs,
) -> (plan: OpenPlan)
    requires
        old(hooks).guard_headroom(),
    ensures
        *final(hooks) == *old(hooks),
        plan_ok(plan, table@, normalize_spec(utf16_lossy_of(path_units@)), args),
{
    let path = decode_wide(path_units);
    on_create_file(hooks, table, path.as_str(), args)
}

/// Interception body of the narrow-string file-open entry point: decode the
/// byte path argument lossily and hand it to the normalized handler.
pub fn on_open_narrow(
    hooks: &mut FileHooks,
    table: &ReplacementTable,
    path_bytes: &Vec<u8>,
    args: OpenArgs,
) -> (plan: OpenPlan)
    requires
        old(hooks).guard_headroom(),
    ensures
        *final(hooks) == *old(hooks),
        plan_ok(plan, table@, normalize_spec(utf8_lossy_of(path_bytes@)), args),
{
    let path = decode_narrow(path_bytes);
    on_create_file(hooks, table, path.as_str(), args)
}

/// Transparent pass-through: when the table does not bind the cleaned path,
/// the plan forwards that very path, wide-encoded and nul-terminated, with
/// the six arguments unchanged and nothing logged.
pub proof fn lemma_passthrough(
    plan: OpenPlan,
    t: Map<Seq<char>, Seq<char>>,
    p: Seq<char>,
    args: OpenArgs,
)
    requires
        plan_ok(plan, t, p, args),
        !t.contains_key(p),
    ensures
        plan.target == Target::WideOriginal,
        plan.path_utf16@ == wide_units_of(p) + seq![0u16],
        plan.args == args,
        plan.log_line is None,
{
}

/// Redirection: when the table binds the cleaned path, the plan forwards
/// the replacement, wide-encoded and nul-terminated, with the six arguments
/// unchanged, and logs the redirection.
pub proof fn lemma_redirection(
    plan: OpenPlan,
    t: Map<Seq<char>, Seq<char>>,
    p: Seq<char>,
    args: OpenArgs,
)
    requires
        plan_ok(plan, t, p, args),
        t.contains_key(p),
    ensures
        plan.target == Target::WideOriginal,
        plan.path_utf16@ == wide_units_of(t[p]) + seq![0u16],
        plan.args == args,
        log_view(plan.log_line) == Some(log_line_spec(p, t[p])),
{
}

/// Entry-point independence: a wide call and a narrow call whose path
/// arguments decode to the same characters are planned identically, down to
/// the forwarded path, the target, the arguments and the log line.
pub proof fn lemma_entry_agreement(
    wide_plan: OpenPlan,
    narrow_plan: OpenPlan,
    t: Map<Seq<char>, Seq<char>>,
    wide_units: Seq<u16>,
    narrow_bytes: Seq<u8>,
    args: OpenArgs,
)
    requires
        utf16_lossy_of(wide_units) == utf8_lossy_of(narrow_bytes),
        plan_ok(wide_plan, t, normalize_spec(utf16_lossy_of(wide_units)), args),
        plan_ok(narrow_plan, t, normalize_spec(utf8_lossy_of(narrow_bytes)), args),
    ensures
        wide_plan.target == narrow_plan.target,
        wide_plan.path_utf16@ == narrow_plan.path_utf16@,
        wide_plan.args == narrow_plan.args,
        log_view(wide_plan.log_line) == log_view(narrow_plan.log_line),
{
}

} // verus!
