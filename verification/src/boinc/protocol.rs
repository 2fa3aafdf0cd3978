//! BOINC GUI RPC wire protocol: request framing and reply parsing.
//!
//! Replies are scanned for `<tag>value</tag>` pairs rather than parsed as a
//! full XML tree, which keeps parsing tolerant across BOINC versions.
use vstd::prelude::*;
use vstd::utf8::{decode_utf8, encode_utf8, valid_utf8};

use crate::boinc::models::TaskStatus;
use crate::error::AppError;
use crate::text::{
    chars_eq, contains, contains_exec, find_exec, find_from, from_chars, is_whitespace, is_ws,
    lemma_find_from_props, lower, lower_exec, parse_i32, parse_i32_exec, parse_u64,
    parse_u64_exec, push_all, slice_of, starts_with, string_of, to_chars, trim, trim_chars,
};

verus! {

/// The end-of-message marker of the wire protocol.
pub const EOM: u8 = 3;

// ---------------------------------------------------------------------------
// Framing
// ---------------------------------------------------------------------------

/// The request envelope around an inner command.
pub open spec fn request_envelope(inner: Seq<char>) -> Seq<char> {
    "<boinc_gui_rpc_request>"@ + inner + "</boinc_gui_rpc_request>"@
}

/// Wraps a BOINC inner command in the GUI RPC request envelope and appends
/// the end-of-message marker `0x03`: the UTF-8 bytes of
/// `<boinc_gui_rpc_request>{inner}</boinc_gui_rpc_request>` followed by `0x03`.
pub fn frame_request(inner_xml: &str) -> (r: Vec<u8>)
    ensures
        r@ == encode_utf8(request_envelope(inner_xml@)).push(EOM),
{
    let mut s = String::from_str("<boinc_gui_rpc_request>");
    s.append(inner_xml);
    s.append("</boinc_gui_rpc_request>");
    let mut bytes = s.as_str().as_bytes_vec();
    bytes.push(EOM);
    bytes
}

/// Decodes `bytes` as UTF-8 (`String::from_utf8`).
///
/// Calls std's `String::from_utf8`; the claim is its documented contract:
/// it succeeds exactly on valid UTF-8, with the decoded characters.
#[verifier::external_body]
fn utf8_decode(bytes: &[u8]) -> (r: Option<String>)
    ensures
        r is Some <==> valid_utf8(bytes@),
        r matches Some(s) ==> s@ == decode_utf8(bytes@),
{
    String::from_utf8(bytes.to_vec()).ok()
}

/// `raw` without one trailing end-of-message marker.
pub open spec fn strip_eom(raw: Seq<u8>) -> Seq<u8> {
    if raw.len() > 0 && raw.last() == EOM {
        raw.drop_last()
    } else {
        raw
    }
}

/// What `parse_response_payload` decides: the reply text, or why it is refused.
pub open spec fn response_payload_spec(raw: Seq<u8>) -> Result<Seq<char>, Seq<char>> {
    let body = strip_eom(raw);
    if !valid_utf8(body) {
        Err("response is not valid UTF-8"@)
    } else if !contains(decode_utf8(body), "<boinc_gui_rpc_reply>"@) {
        Err("missing <boinc_gui_rpc_reply> root"@)
    } else {
        Ok(decode_utf8(body))
    }
}

/// A reply reads the same with or without its end-of-message marker.
pub proof fn lemma_payload_marker_optional(raw: Seq<u8>)
    requires
        raw.len() == 0 || raw.last() != EOM,
    ensures
        response_payload_spec(raw.push(EOM)) == response_payload_spec(raw),
{
    assert(raw.push(EOM).drop_last() =~= raw);
}

/// Parses a raw BOINC reply payload into UTF-8 XML text.
///
/// Accepts payloads with or without the trailing end-of-message marker; the
/// text must be valid UTF-8 and contain the `<boinc_gui_rpc_reply>` root.
pub fn parse_response_payload(raw: &[u8]) -> (r: Result<String, AppError>)
    ensures
        match response_payload_spec(raw@) {
            Ok(t) => r matches Ok(s) && s@ == t,
            Err(m) => r matches Err(AppError::InvalidResponse(s)) && s@ == m,
        },
{
    let n = raw.len();
    let body: Vec<u8> = if n > 0 && raw[n - 1] == EOM {
        let mut v: Vec<u8> = Vec::new();
        let mut i: usize = 0;
        while i < n - 1
            invariant
                n == raw@.len(),
                n > 0,
                i <= n - 1,
                v@ == raw@.take(i as int),
            decreases n - 1 - i,
        {
            v.push(raw[i]);
            i = i + 1;
            assert(raw@.take(i as int) =~= raw@.take(i - 1).push(raw@[i - 1]));
        }
        assert(raw@.take(n - 1) =~= raw@.drop_last());
        v
    } else {
        let mut v: Vec<u8> = Vec::new();
        let mut i: usize = 0;
        while i < n
            invariant
                n == raw@.len(),
                i <= n,
                v@ == raw@.take(i as int),
            decreases n - i,
        {
            v.push(raw[i]);
            i = i + 1;
            assert(raw@.take(i as int) =~= raw@.take(i - 1).push(raw@[i - 1]));
        }
        assert(raw@.take(n as int) =~= raw@);
        v
    };
    let text = match utf8_decode(body.as_slice()) {
        Some(t) => t,
        None => return Err(AppError::InvalidResponse(string_of("response is not valid UTF-8"))),
    };
    let chars = to_chars(text.as_str());
    if !contains_exec(&chars, &to_chars("<boinc_gui_rpc_reply>")) {
        return Err(AppError::InvalidResponse(string_of("missing <boinc_gui_rpc_reply> root")));
    }
    Ok(text)
}

/// Returns `true` when a reply indicates authorization failure
/// (it contains `<unauthorized/>` or `<unauthorized>`).
pub fn reply_has_unauthorized(xml: &str) -> (r: bool)
    ensures
        r == (contains(xml@, "<unauthorized/>"@) || contains(xml@, "<unauthorized>"@)),
{
    let chars = to_chars(xml);
    contains_exec(&chars, &to_chars("<unauthorized/>")) || contains_exec(
        &chars,
        &to_chars("<unauthorized>"),
    )
}

// ---------------------------------------------------------------------------
// Tag scanning
// ---------------------------------------------------------------------------

/// `<tag>`.
pub open spec fn open_tag(tag: Seq<char>) -> Seq<char> {
    "<"@ + tag + ">"@
}

/// `</tag>`.
pub open spec fn close_tag(tag: Seq<char>) -> Seq<char> {
    "</"@ + tag + ">"@
}

fn open_tag_exec(tag: &[char]) -> (r: Vec<char>)
    ensures
        r@ == open_tag(tag@),
{
    let mut v = to_chars("<");
    push_all(&mut v, tag);
    push_all(&mut v, &to_chars(">"));
    v
}

fn close_tag_exec(tag: &[char]) -> (r: Vec<char>)
    ensures
        r@ == close_tag(tag@),
{
    let mut v = to_chars("</");
    push_all(&mut v, tag);
    push_all(&mut v, &to_chars(">"));
    v
}

/// The text between the first `<tag>` and the first `</tag>` after it.
pub open spec fn tag_value(xml: Seq<char>, tag: Seq<char>) -> Option<Seq<char>> {
    match find_from(xml, open_tag(tag), 0) {
        None => None,
        Some(st) => {
            let vs = st + open_tag(tag).len();
            match find_from(xml, close_tag(tag), vs) {
                None => None,
                Some(e) => Some(xml.subrange(vs, e)),
            }
        },
    }
}

/// Returns `tag_value(xml, tag)`.
pub fn extract_tag_value(xml: &[char], tag: &[char]) -> (r: Option<Vec<char>>)
    ensures
        match tag_value(xml@, tag@) {
            Some(v) => r matches Some(x) && x@ == v,
            None => r is None,
        },
{
    let open = open_tag_exec(tag);
    let close = close_tag_exec(tag);
    let st = match find_exec(xml, &open, 0) {
        Some(k) => k,
        None => return None,
    };
    proof {
        lemma_find_from_props(xml@, open@, 0);
    }
    let n = xml.len();
    assert(st + open@.len() <= n);
    let vs = st + open.len();
    match find_exec(xml, &close, vs) {
        Some(e) => {
            proof {
                lemma_find_from_props(xml@, close@, vs as int);
            }
            Some(slice_of(xml, vs, e))
        },
        None => None,
    }
}

/// The bodies of successive `<tag>...</tag>` blocks from index `cursor` on.
pub open spec fn blocks_from(xml: Seq<char>, tag: Seq<char>, cursor: int) -> Seq<Seq<char>>
    decreases xml.len() - cursor,
{
    match find_from(xml, open_tag(tag), cursor) {
        None => Seq::empty(),
        Some(st) => {
            let s = st + open_tag(tag).len();
            match find_from(xml, close_tag(tag), s) {
                None => Seq::empty(),
                Some(e) => {
                    let next = e + close_tag(tag).len();
                    if cursor < next <= xml.len() {
                        seq![xml.subrange(s, e)] + blocks_from(xml, tag, next)
                    } else {
                        Seq::empty()
                    }
                },
            }
        },
    }
}

/// The bodies of all `<tag>...</tag>` blocks, scanning left to right.
pub open spec fn blocks(xml: Seq<char>, tag: Seq<char>) -> Seq<Seq<char>> {
    blocks_from(xml, tag, 0)
}

/// Returns `blocks(xml, tag)`.
pub fn extract_block_items(xml: &[char], tag: &[char]) -> (r: Vec<Vec<char>>)
    ensures
        r@.map_values(|b: Vec<char>| b@) == blocks(xml@, tag@),
{
    let open = open_tag_exec(tag);
    let close = close_tag_exec(tag);
    let mut cursor: usize = 0;
    let mut out: Vec<Vec<char>> = Vec::new();
    loop
        invariant
            cursor <= xml@.len(),
            open@ == open_tag(tag@),
            close@ == close_tag(tag@),
            out@.map_values(|b: Vec<char>| b@) + blocks_from(xml@, tag@, cursor as int) == blocks(
                xml@,
                tag@,
            ),
        decreases xml@.len() - cursor,
    {
        let st = match find_exec(xml, &open, cursor) {
            Some(k) => k,
            None => {
                proof {
                    assert(out@.map_values(|b: Vec<char>| b@) + blocks_from(xml@, tag@, cursor as int)
                        =~= out@.map_values(|b: Vec<char>| b@));
                }
                return out;
            },
        };
        proof {
            lemma_find_from_props(xml@, open@, cursor as int);
        }
        let n = xml.len();
        assert(st + open@.len() <= n);
        let s = st + open.len();
        let e = match find_exec(xml, &close, s) {
            Some(k) => k,
            None => {
                proof {
                    assert(out@.map_values(|b: Vec<char>| b@) + blocks_from(xml@, tag@, cursor as int)
                        =~= out@.map_values(|b: Vec<char>| b@));
                }
                return out;
            },
        };
        proof {
            lemma_find_from_props(xml@, close@, s as int);
        }
        assert(e + close@.len() <= n);
        let next = e + close.len();
        let ghost before = out@.map_values(|b: Vec<char>| b@);
        let body = slice_of(xml, s, e);
        out.push(body);
        proof {
            assert(open@.len() > 0) by {
                reveal_strlit("<");
            }
            assert(cursor < next);
            assert(out@.map_values(|b: Vec<char>| b@) =~= before.push(xml@.subrange(s as int, e as int)));
            assert(before + blocks_from(xml@, tag@, cursor as int) =~= before.push(
                xml@.subrange(s as int, e as int),
            ) + blocks_from(xml@, tag@, next as int));
        }
        cursor = next;
    }
}

/// `s` with every whitespace character removed.
pub open spec fn remove_ws(s: Seq<char>) -> Seq<char>
    decreases s.len(),
{
    if s.len() == 0 {
        s
    } else if is_ws(s.last()) {
        remove_ws(s.drop_last())
    } else {
        remove_ws(s.drop_last()).push(s.last())
    }
}

fn remove_ws_exec(s: &[char]) -> (r: Vec<char>)
    ensures
        r@ == remove_ws(s@),
{
    let mut out: Vec<char> = Vec::new();
    let mut i: usize = 0;
    while i < s.len()
        invariant
            i <= s@.len(),
            out@ == remove_ws(s@.take(i as int)),
        decreases s@.len() - i,
    {
        let c = s[i];
        proof {
            assert(s@.take(i + 1).drop_last() =~= s@.take(i as int));
        }
        if !is_whitespace(c) {
            out.push(c);
        }
        i = i + 1;
    }
    assert(s@.take(s@.len() as int) =~= s@);
    out
}

/// `xml`, with whitespace removed, contains `<tag/>` or `<tag></tag>`.
pub open spec fn has_self_closing(xml: Seq<char>, tag: Seq<char>) -> bool {
    let compact = remove_ws(xml);
    contains(compact, "<"@ + tag + "/>"@) || contains(compact, open_tag(tag) + close_tag(tag))
}

fn has_self_closing_tag(xml: &[char], tag: &[char]) -> (r: bool)
    ensures
        r == has_self_closing(xml@, tag@),
{
    let compact = remove_ws_exec(xml);
    let mut n1 = to_chars("<");
    push_all(&mut n1, tag);
    push_all(&mut n1, &to_chars("/>"));
    let mut n2 = open_tag_exec(tag);
    push_all(&mut n2, &close_tag_exec(tag));
    contains_exec(&compact, &n1) || contains_exec(&compact, &n2)
}

/// A boolean tag: present as `<tag/>` (or empty), or with value `1` or
/// `true` (any ASCII case) after trimming.
pub open spec fn bool_tag(xml: Seq<char>, tag: Seq<char>) -> bool {
    has_self_closing(xml, tag) || match tag_value(xml, tag) {
        Some(v) => trim(v) == "1"@ || lower(trim(v)) == "true"@,
        None => false,
    }
}

/// Lowercase ASCII text is its own ASCII lowercasing.
proof fn lemma_true_lower()
    ensures
        lower("true"@) == "true"@,
{
    reveal_strlit("true");
    assert(lower("true"@) =~= "true"@);
}

/// Returns `bool_tag(xml, tag)`.
pub fn parse_bool_tag(xml: &[char], tag: &[char]) -> (r: bool)
    ensures
        r == bool_tag(xml@, tag@),
{
    if has_self_closing_tag(xml, tag) {
        return true;
    }
    match extract_tag_value(xml, tag) {
        Some(v) => {
            let t = trim_chars(&v);
            let lt = lower_exec(&t);
            proof {
                lemma_true_lower();
            }
            chars_eq(&t, &to_chars("1")) || chars_eq(&lt, &to_chars("true"))
        },
        None => false,
    }
}

/// `tag_value`, or empty text when the tag is absent (`unwrap_or_default`).
pub open spec fn tag_or_empty(xml: Seq<char>, tag: Seq<char>) -> Seq<char> {
    match tag_value(xml, tag) {
        Some(v) => v,
        None => Seq::empty(),
    }
}

fn tag_or_empty_exec(xml: &[char], tag: &str) -> (r: String)
    ensures
        r@ == tag_or_empty(xml@, tag@),
{
    match extract_tag_value(xml, &to_chars(tag)) {
        Some(v) => from_chars(&v),
        None => String::new(),
    }
}

fn tag_opt_exec(xml: &[char], tag: &str) -> (r: Option<String>)
    ensures
        match tag_value(xml@, tag@) {
            Some(v) => r matches Some(x) && x@ == v,
            None => r is None,
        },
{
    match extract_tag_value(xml, &to_chars(tag)) {
        Some(v) => Some(from_chars(&v)),
        None => None,
    }
}

// ---------------------------------------------------------------------------
// Client status
// ---------------------------------------------------------------------------

/// Parsed BOINC client mode values.
#[derive(Debug)]
pub struct ParsedCcStatus {
    pub network_mode: Option<String>,
    pub task_mode: Option<String>,
    pub gpu_mode: Option<String>,
}

pub open spec fn opt_chars(o: Option<String>) -> Option<Seq<char>> {
    match o {
        Some(s) => Some(s@),
        None => None,
    }
}

/// A mode value: the `perm_mode` inside the tag, else its `mode`, else its
/// own trimmed text when that is non-empty and does not start with `<`.
pub open spec fn mode_value(xml: Seq<char>, tag: Seq<char>) -> Option<Seq<char>> {
    match tag_value(xml, tag) {
        None => None,
        Some(inner) => match tag_value(inner, "perm_mode"@) {
            Some(v) => Some(v),
            None => match tag_value(inner, "mode"@) {
                Some(v) => Some(v),
                None => if trim(inner).len() == 0 || starts_with(trim(inner), "<"@) {
                    None
                } else {
                    Some(trim(inner))
                },
            },
        },
    }
}

fn parse_mode_value(xml: &[char], tag: &str) -> (r: Option<String>)
    ensures
        opt_chars(r) == mode_value(xml@, tag@),
{
    let inner = match extract_tag_value(xml, &to_chars(tag)) {
        Some(v) => v,
        None => return None,
    };
    if let Some(v) = extract_tag_value(&inner, &to_chars("perm_mode")) {
        return Some(from_chars(&v));
    }
    if let Some(v) = extract_tag_value(&inner, &to_chars("mode")) {
        return Some(from_chars(&v));
    }
    let t = trim_chars(&inner);
    if t.len() == 0 || crate::text::starts_with_exec(&t, &to_chars("<")) {
        None
    } else {
        Some(from_chars(&t))
    }
}

/// Parses mode values from a `get_cc_status` reply.
pub fn parse_cc_status(xml: &str) -> (r: Result<ParsedCcStatus, AppError>)
    ensures
        r matches Ok(s) && opt_chars(s.network_mode) == mode_value(xml@, "network_mode"@)
            && opt_chars(s.task_mode) == mode_value(xml@, "task_mode"@) && opt_chars(s.gpu_mode)
            == mode_value(xml@, "gpu_mode"@),
{
    let chars = to_chars(xml);
    Ok(ParsedCcStatus {
        network_mode: parse_mode_value(&chars, "network_mode"),
        task_mode: parse_mode_value(&chars, "task_mode"),
        gpu_mode: parse_mode_value(&chars, "gpu_mode"),
    })
}

// ---------------------------------------------------------------------------
// Projects
// ---------------------------------------------------------------------------

/// Parsed project shape used by read API mapping.
#[derive(Debug)]
pub struct ParsedProject {
    pub url: String,
    pub name: String,
    pub suspended_via_gui: bool,
    pub dont_request_more_work: bool,
}

/// The mathematical content of a [`ParsedProject`].
pub struct ParsedProjectView {
    pub url: Seq<char>,
    pub name: Seq<char>,
    pub suspended_via_gui: bool,
    pub dont_request_more_work: bool,
}

impl View for ParsedProject {
    type V = ParsedProjectView;

    open spec fn view(&self) -> ParsedProjectView {
        ParsedProjectView {
            url: self.url@,
            name: self.name@,
            suspended_via_gui: self.suspended_via_gui,
            dont_request_more_work: self.dont_request_more_work,
        }
    }
}

/// The project described by one `<project>` block.
pub open spec fn project_of(block: Seq<char>) -> ParsedProjectView {
    ParsedProjectView {
        url: tag_or_empty(block, "master_url"@),
        name: tag_or_empty(block, "project_name"@),
        suspended_via_gui: bool_tag(block, "suspended_via_gui"@),
        dont_request_more_work: bool_tag(block, "dont_request_more_work"@),
    }
}

/// Parses the project list from a `get_project_status` reply: one project
/// per `<project>` block, in order.
pub fn parse_projects(xml: &str) -> (r: Result<Vec<ParsedProject>, AppError>)
    ensures
        r matches Ok(v) && v@.map_values(|p: ParsedProject| p@) == blocks(xml@, "project"@).map_values(
            |b: Seq<char>| project_of(b),
        ),
{
    let chars = to_chars(xml);
    let bs = extract_block_items(&chars, &to_chars("project"));
    let ghost bv = bs@.map_values(|b: Vec<char>| b@);
    let mut out: Vec<ParsedProject> = Vec::new();
    let mut i: usize = 0;
    while i < bs.len()
        invariant
            i <= bs@.len(),
            bv == bs@.map_values(|b: Vec<char>| b@),
            out@.map_values(|p: ParsedProject| p@) == bv.take(i as int).map_values(
                |b: Seq<char>| project_of(b),
            ),
        decreases bs@.len() - i,
    {
        let b = &bs[i];
        let ghost before = out@.map_values(|p: ParsedProject| p@);
        out.push(ParsedProject {
            url: tag_or_empty_exec(b, "master_url"),
            name: tag_or_empty_exec(b, "project_name"),
            suspended_via_gui: parse_bool_tag(b, &to_chars("suspended_via_gui")),
            dont_request_more_work: parse_bool_tag(b, &to_chars("dont_request_more_work")),
        });
        proof {
            assert(bv[i as int] == b@);
            assert(out@.map_values(|p: ParsedProject| p@) =~= before.push(project_of(b@)));
            assert(bv.take(i + 1).map_values(|b: Seq<char>| project_of(b)) =~= bv.take(
                i as int,
            ).map_values(|b: Seq<char>| project_of(b)).push(project_of(b@)));
        }
        i = i + 1;
    }
    proof {
        assert(bv.take(bs@.len() as int) =~= bv);
    }
    Ok(out)
}

// ---------------------------------------------------------------------------
// Tasks
// ---------------------------------------------------------------------------

/// Parsed task status used before mapping to the UI-facing `TaskStatus`.
#[derive(Debug, Clone, Copy, PartialEq, Eq, Structural)]
pub enum ParsedTaskStatus {
    Running,
    WaitingToRun,
    ReadyToStart,
    ReadyToReport,
}

/// Parsed task/result shape used by read API mapping.
///
/// The numeric fields that BOINC reports as floating-point values
/// (`fraction_done`, `elapsed_seconds`, `remaining_seconds`,
/// `report_deadline`, `checkpoint_cpu_time`, `received_time`) hold the text
/// of their tag, untouched; reading them as numbers is left to the caller.
#[derive(Debug)]
pub struct ParsedTask {
    pub project_url: String,
    pub name: String,
    pub active_task: bool,
    pub suspended_via_gui: bool,
    pub fraction_done: Option<String>,
    pub status: ParsedTaskStatus,
    pub elapsed_seconds: Option<String>,
    pub remaining_seconds: Option<String>,
    pub report_deadline: Option<String>,
    pub application: Option<String>,
    pub checkpoint_cpu_time: Option<String>,
    pub received_time: Option<String>,
    pub exit_status: Option<i32>,
}

/// The mathematical content of a [`ParsedTask`].
pub struct ParsedTaskView {
    pub project_url: Seq<char>,
    pub name: Seq<char>,
    pub active_task: bool,
    pub suspended_via_gui: bool,
    pub fraction_done: Option<Seq<char>>,
    pub status: ParsedTaskStatus,
    pub elapsed_seconds: Option<Seq<char>>,
    pub remaining_seconds: Option<Seq<char>>,
    pub report_deadline: Option<Seq<char>>,
    pub application: Option<Seq<char>>,
    pub checkpoint_cpu_time: Option<Seq<char>>,
    pub received_time: Option<Seq<char>>,
    pub exit_status: Option<i32>,
}

impl View for ParsedTask {
    type V = ParsedTaskView;

    open spec fn view(&self) -> ParsedTaskView {
        ParsedTaskView {
            project_url: self.project_url@,
            name: self.name@,
            active_task: self.active_task,
            suspended_via_gui: self.suspended_via_gui,
            fraction_done: opt_chars(self.fraction_done),
            status: self.status,
            elapsed_seconds: opt_chars(self.elapsed_seconds),
            remaining_seconds: opt_chars(self.remaining_seconds),
            report_deadline: opt_chars(self.report_deadline),
            application: opt_chars(self.application),
            checkpoint_cpu_time: opt_chars(self.checkpoint_cpu_time),
            received_time: opt_chars(self.received_time),
            exit_status: self.exit_status,
        }
    }
}

/// What `str::to_lowercase` returns for the given characters (the Unicode
/// lowercase mapping of std's tables).
pub uninterp spec fn unicode_lowercase(s: Seq<char>) -> Seq<char>;

/// Lowercases `s` with std's `str::to_lowercase`.
///
/// The result is named `unicode_lowercase` of the input; nothing more is
/// claimed about the Unicode mapping it applies.
#[verifier::external_body]
fn to_lowercase(s: &str) -> (r: String)
    ensures
        r@ == unicode_lowercase(s@),
{
    s.to_lowercase()
}

/// A lowercased `scheduler_state` that marks a queued or preempted task:
/// exactly `1`, or containing `wait` or `preempt`.
pub open spec fn waiting_state(lowered: Seq<char>) -> bool {
    lowered == "1"@ || contains(lowered, "wait"@) || contains(lowered, "preempt"@)
}

/// Returns `waiting_state(lowered)` for an already lowercased
/// `scheduler_state` value.
pub fn is_waiting_state(lowered: &str) -> (r: bool)
    ensures
        r == waiting_state(lowered@),
{
    let chars = to_chars(lowered);
    chars_eq(&chars, &to_chars("1")) || contains_exec(&chars, &to_chars("wait")) || contains_exec(
        &chars,
        &to_chars("preempt"),
    )
}

/// A task is active when `<active_task>` is a true boolean tag, or when
/// `<active_task_state>` holds an integer greater than zero.
pub open spec fn task_active(block: Seq<char>) -> bool {
    bool_tag(block, "active_task"@) || match tag_value(block, "active_task_state"@) {
        Some(v) => match parse_i32(trim(v)) {
            Some(n) => n > 0,
            None => false,
        },
        None => false,
    }
}

fn task_active_exec(block: &[char]) -> (r: bool)
    ensures
        r == task_active(block@),
{
    if parse_bool_tag(block, &to_chars("active_task")) {
        return true;
    }
    match extract_tag_value(block, &to_chars("active_task_state")) {
        Some(v) => match parse_i32_exec(&trim_chars(&v)) {
            Some(n) => n > 0,
            None => false,
        },
        None => false,
    }
}

/// The status of a task block, given whether it is active and its
/// lowercased `scheduler_state`: ready-to-report first, then running, then
/// waiting, else ready to start.
pub open spec fn task_status(block: Seq<char>, active: bool, lowered: Seq<char>) -> ParsedTaskStatus {
    if bool_tag(block, "ready_to_report"@) {
        ParsedTaskStatus::ReadyToReport
    } else if active {
        ParsedTaskStatus::Running
    } else if waiting_state(lowered) {
        ParsedTaskStatus::WaitingToRun
    } else {
        ParsedTaskStatus::ReadyToStart
    }
}

/// The lowercased `scheduler_state` of a task block (empty when absent).
pub open spec fn scheduler_state_lowered(block: Seq<char>) -> Seq<char> {
    unicode_lowercase(tag_or_empty(block, "scheduler_state"@))
}

fn classify_task_status(block: &[char], active_task: bool) -> (r: ParsedTaskStatus)
    ensures
        r == task_status(block@, active_task, scheduler_state_lowered(block@)),
{
    if parse_bool_tag(block, &to_chars("ready_to_report")) {
        return ParsedTaskStatus::ReadyToReport;
    }
    if active_task {
        return ParsedTaskStatus::Running;
    }
    let state = tag_or_empty_exec(block, "scheduler_state");
    let lowered = to_lowercase(state.as_str());
    if is_waiting_state(lowered.as_str()) {
        return ParsedTaskStatus::WaitingToRun;
    }
    ParsedTaskStatus::ReadyToStart
}

/// Best-effort application identifier: `<resources>`, else `<plan_class>`,
/// else `app#` followed by `<app_version_num>`.
pub open spec fn application_of(block: Seq<char>) -> Option<Seq<char>> {
    match tag_value(block, "resources"@) {
        Some(v) => Some(v),
        None => match tag_value(block, "plan_class"@) {
            Some(v) => Some(v),
            None => match tag_value(block, "app_version_num"@) {
                Some(v) => Some("app#"@ + v),
                None => None,
            },
        },
    }
}

fn extract_application(block: &[char]) -> (r: Option<String>)
    ensures
        opt_chars(r) == application_of(block@),
{
    if let Some(v) = tag_opt_exec(block, "resources") {
        return Some(v);
    }
    if let Some(v) = tag_opt_exec(block, "plan_class") {
        return Some(v);
    }
    match extract_tag_value(block, &to_chars("app_version_num")) {
        Some(v) => {
            let mut s = to_chars("app#");
            push_all(&mut s, &v);
            Some(from_chars(&s))
        },
        None => None,
    }
}

/// An optional integer tag, read with `str::parse::<i32>` after trimming.
pub open spec fn int_tag(block: Seq<char>, tag: Seq<char>) -> Option<i32> {
    match tag_value(block, tag) {
        Some(v) => parse_i32(trim(v)),
        None => None,
    }
}

/// The task described by one `<result>` block.
pub open spec fn task_of(block: Seq<char>) -> ParsedTaskView {
    let active = task_active(block);
    ParsedTaskView {
        project_url: tag_or_empty(block, "project_url"@),
        name: tag_or_empty(block, "name"@),
        active_task: active,
        suspended_via_gui: bool_tag(block, "suspended_via_gui"@),
        fraction_done: tag_value(block, "fraction_done"@),
        status: task_status(block, active, scheduler_state_lowered(block)),
        elapsed_seconds: tag_value(block, "elapsed_time"@),
        remaining_seconds: tag_value(block, "estimated_cpu_time_remaining"@),
        report_deadline: tag_value(block, "report_deadline"@),
        application: application_of(block),
        checkpoint_cpu_time: tag_value(block, "checkpoint_cpu_time"@),
        received_time: tag_value(block, "received_time"@),
        exit_status: int_tag(block, "exit_status"@),
    }
}

fn parse_task_block(b: &[char]) -> (r: ParsedTask)
    ensures
        r@ == task_of(b@),
{
    let active_task = task_active_exec(b);
    let status = classify_task_status(b, active_task);
    let exit_status = match extract_tag_value(b, &to_chars("exit_status")) {
        Some(v) => parse_i32_exec(&trim_chars(&v)),
        None => None,
    };
    ParsedTask {
        project_url: tag_or_empty_exec(b, "project_url"),
        name: tag_or_empty_exec(b, "name"),
        active_task,
        suspended_via_gui: parse_bool_tag(b, &to_chars("suspended_via_gui")),
        fraction_done: tag_opt_exec(b, "fraction_done"),
        status,
        elapsed_seconds: tag_opt_exec(b, "elapsed_time"),
        remaining_seconds: tag_opt_exec(b, "estimated_cpu_time_remaining"),
        report_deadline: tag_opt_exec(b, "report_deadline"),
        application: extract_application(b),
        checkpoint_cpu_time: tag_opt_exec(b, "checkpoint_cpu_time"),
        received_time: tag_opt_exec(b, "received_time"),
        exit_status,
    }
}

/// Parses the task/result list from a `get_results` reply: one task per
/// `<result>` block, in order.
pub fn parse_tasks(xml: &str) -> (r: Result<Vec<ParsedTask>, AppError>)
    ensures
        r matches Ok(v) && v@.map_values(|t: ParsedTask| t@) == blocks(xml@, "result"@).map_values(
            |b: Seq<char>| task_of(b),
        ),
{
    let chars = to_chars(xml);
    let bs = extract_block_items(&chars, &to_chars("result"));
    let ghost bv = bs@.map_values(|b: Vec<char>| b@);
    let mut out: Vec<ParsedTask> = Vec::new();
    let mut i: usize = 0;
    while i < bs.len()
        invariant
            i <= bs@.len(),
            bv == bs@.map_values(|b: Vec<char>| b@),
            out@.map_values(|t: ParsedTask| t@) == bv.take(i as int).map_values(
                |b: Seq<char>| task_of(b),
            ),
        decreases bs@.len() - i,
    {
        let ghost before = out@.map_values(|t: ParsedTask| t@);
        let t = parse_task_block(&bs[i]);
        out.push(t);
        proof {
            assert(bv[i as int] == bs@[i as int]@);
            assert(out@.map_values(|t: ParsedTask| t@) =~= before.push(task_of(bv[i as int])));
            assert(bv.take(i + 1).map_values(|b: Seq<char>| task_of(b)) =~= bv.take(
                i as int,
            ).map_values(|b: Seq<char>| task_of(b)).push(task_of(bv[i as int])));
        }
        i = i + 1;
    }
    proof {
        assert(bv.take(bs@.len() as int) =~= bv);
    }
    Ok(out)
}

// ---------------------------------------------------------------------------
// Transfers
// ---------------------------------------------------------------------------

/// Parsed transfer shape used by read API mapping.
///
/// `nbytes` and `xfer_speed`, which BOINC reports as floating-point values,
/// hold the text of their tag, untouched; reading them as numbers is left to
/// the caller.
#[derive(Debug)]
pub struct ParsedTransfer {
    pub project_url: String,
    pub file_name: String,
    pub status: String,
    pub nbytes: Option<String>,
    pub bytes_xferred: Option<u64>,
    pub xfer_speed: Option<String>,
    pub is_upload: bool,
    pub error_msg: Option<String>,
}

/// The mathematical content of a [`ParsedTransfer`].
pub struct ParsedTransferView {
    pub project_url: Seq<char>,
    pub file_name: Seq<char>,
    pub status: Seq<char>,
    pub nbytes: Option<Seq<char>>,
    pub bytes_xferred: Option<u64>,
    pub xfer_speed: Option<Seq<char>>,
    pub is_upload: bool,
    pub error_msg: Option<Seq<char>>,
}

impl View for ParsedTransfer {
    type V = ParsedTransferView;

    open spec fn view(&self) -> ParsedTransferView {
        ParsedTransferView {
            project_url: self.project_url@,
            file_name: self.file_name@,
            status: self.status@,
            nbytes: opt_chars(self.nbytes),
            bytes_xferred: self.bytes_xferred,
            xfer_speed: opt_chars(self.xfer_speed),
            is_upload: self.is_upload,
            error_msg: opt_chars(self.error_msg),
        }
    }
}

/// The value of the first of two tags that is present.
pub open spec fn first_tag(block: Seq<char>, a: Seq<char>, b: Seq<char>) -> Option<Seq<char>> {
    match tag_value(block, a) {
        Some(v) => Some(v),
        None => tag_value(block, b),
    }
}

/// The transfer status: the `<status>` text, or `unknown` when it is absent
/// or empty.
pub open spec fn transfer_status(block: Seq<char>) -> Seq<char> {
    match tag_value(block, "status"@) {
        Some(v) => if v.len() == 0 {
            "unknown"@
        } else {
            v
        },
        None => "unknown"@,
    }
}

/// An upload: `<generated_locally>` is a true boolean tag, or `<is_upload>`
/// is `1` after trimming.
pub open spec fn transfer_is_upload(block: Seq<char>) -> bool {
    bool_tag(block, "generated_locally"@) || match tag_value(block, "is_upload"@) {
        Some(v) => trim(v) == "1"@,
        None => false,
    }
}

/// Bytes transferred: `<bytes_xferred>` (else `<last_bytes_xferred>`) read
/// as an unsigned integer after trimming.
pub open spec fn transfer_bytes(block: Seq<char>) -> Option<u64> {
    match first_tag(block, "bytes_xferred"@, "last_bytes_xferred"@) {
        Some(v) => parse_u64(trim(v)),
        None => None,
    }
}

/// The error message: `<error_msg>` (else `<error>`), dropped when blank.
pub open spec fn transfer_error(block: Seq<char>) -> Option<Seq<char>> {
    match first_tag(block, "error_msg"@, "error"@) {
        Some(v) => if trim(v).len() > 0 {
            Some(v)
        } else {
            None
        },
        None => None,
    }
}

/// The transfer described by one `<file_transfer>` block.
pub open spec fn transfer_of(block: Seq<char>) -> ParsedTransferView {
    ParsedTransferView {
        project_url: tag_or_empty(block, "project_url"@),
        file_name: tag_or_empty(block, "name"@),
        status: transfer_status(block),
        nbytes: tag_value(block, "nbytes"@),
        bytes_xferred: transfer_bytes(block),
        xfer_speed: tag_value(block, "xfer_speed"@),
        is_upload: transfer_is_upload(block),
        error_msg: transfer_error(block),
    }
}

fn first_tag_exec(block: &[char], a: &str, b: &str) -> (r: Option<Vec<char>>)
    ensures
        match first_tag(block@, a@, b@) {
            Some(v) => r matches Some(x) && x@ == v,
            None => r is None,
        },
{
    match extract_tag_value(block, &to_chars(a)) {
        Some(v) => Some(v),
        None => extract_tag_value(block, &to_chars(b)),
    }
}

fn parse_transfer_block(b: &[char]) -> (r: ParsedTransfer)
    ensures
        r@ == transfer_of(b@),
{
    let status = match extract_tag_value(b, &to_chars("status")) {
        Some(v) => if v.len() == 0 {
            string_of("unknown")
        } else {
            from_chars(&v)
        },
        None => string_of("unknown"),
    };
    let is_upload = parse_bool_tag(b, &to_chars("generated_locally")) || match extract_tag_value(
        b,
        &to_chars("is_upload"),
    ) {
        Some(v) => chars_eq(&trim_chars(&v), &to_chars("1")),
        None => false,
    };
    let bytes_xferred = match first_tag_exec(b, "bytes_xferred", "last_bytes_xferred") {
        Some(v) => parse_u64_exec(&trim_chars(&v)),
        None => None,
    };
    let error_msg = match first_tag_exec(b, "error_msg", "error") {
        Some(v) => if trim_chars(&v).len() > 0 {
            Some(from_chars(&v))
        } else {
            None
        },
        None => None,
    };
    ParsedTransfer {
        project_url: tag_or_empty_exec(b, "project_url"),
        file_name: tag_or_empty_exec(b, "name"),
        status,
        nbytes: tag_opt_exec(b, "nbytes"),
        bytes_xferred,
        xfer_speed: tag_opt_exec(b, "xfer_speed"),
        is_upload,
        error_msg,
    }
}

/// Parses the transfer list from a `get_file_transfers` reply: one transfer
/// per `<file_transfer>` block, in order.
pub fn parse_transfers(xml: &str) -> (r: Result<Vec<ParsedTransfer>, AppError>)
    ensures
        r matches Ok(v) && v@.map_values(|t: ParsedTransfer| t@) == blocks(
            xml@,
            "file_transfer"@,
        ).map_values(|b: Seq<char>| transfer_of(b)),
{
    let chars = to_chars(xml);
    let bs = extract_block_items(&chars, &to_chars("file_transfer"));
    let ghost bv = bs@.map_values(|b: Vec<char>| b@);
    let mut out: Vec<ParsedTransfer> = Vec::new();
    let mut i: usize = 0;
    while i < bs.len()
        invariant
            i <= bs@.len(),
            bv == bs@.map_values(|b: Vec<char>| b@),
            out@.map_values(|t: ParsedTransfer| t@) == bv.take(i as int).map_values(
                |b: Seq<char>| transfer_of(b),
            ),
        decreases bs@.len() - i,
    {
        let ghost before = out@.map_values(|t: ParsedTransfer| t@);
        let t = parse_transfer_block(&bs[i]);
        out.push(t);
        proof {
            assert(bv[i as int] == bs@[i as int]@);
            assert(out@.map_values(|t: ParsedTransfer| t@) =~= before.push(transfer_of(bv[i as int])));
            assert(bv.take(i + 1).map_values(|b: Seq<char>| transfer_of(b)) =~= bv.take(
                i as int,
            ).map_values(|b: Seq<char>| transfer_of(b)).push(transfer_of(bv[i as int])));
        }
        i = i + 1;
    }
    proof {
        assert(bv.take(bs@.len() as int) =~= bv);
    }
    Ok(out)
}

// ---------------------------------------------------------------------------
// Authentication
// ---------------------------------------------------------------------------

/// Extracts the nonce from a BOINC `auth1` reply.
///
/// `decoded` is the `nonce` field that a structured (serde) decoding of the
/// reply produced, when that decoding succeeded and found one; it is
/// preferred. Otherwise the `<nonce>` tag is scanned for.
pub fn parse_auth_nonce(xml: &str, decoded: Option<String>) -> (r: Result<String, AppError>)
    ensures
        match decoded {
            Some(n) => r matches Ok(s) && s@ == n@,
            None => match tag_value(xml@, "nonce"@) {
                Some(v) => r matches Ok(s) && s@ == v,
                None => r matches Err(AppError::InvalidResponse(m)) && m@ == "missing auth nonce"@,
            },
        },
{
    if let Some(n) = decoded {
        return Ok(n);
    }
    match tag_opt_exec(&to_chars(xml), "nonce") {
        Some(v) => Ok(v),
        None => Err(AppError::InvalidResponse(string_of("missing auth nonce"))),
    }
}

/// Parses the authorization status from a BOINC `auth2` reply: authorized
/// exactly when the value is `1`.
///
/// `decoded` is the `authorized` field that a structured (serde) decoding
/// of the reply produced, when that decoding succeeded and found one; it is
/// preferred. Otherwise the `<authorized>` tag is scanned for.
pub fn parse_auth_authorized(xml: &str, decoded: Option<String>) -> (r: Result<bool, AppError>)
    ensures
        match decoded {
            Some(v) => r == Ok::<bool, AppError>(v@ == "1"@),
            None => r == Ok::<bool, AppError>(tag_value(xml@, "authorized"@) == Some("1"@)),
        },
{
    match decoded {
        Some(v) => Ok(chars_eq(&to_chars(v.as_str()), &to_chars("1"))),
        None => match extract_tag_value(&to_chars(xml), &to_chars("authorized")) {
            Some(v) => Ok(chars_eq(&v, &to_chars("1"))),
            None => Ok(false),
        },
    }
}

/// The MD5 digest of some bytes, as computed by the `md5` crate.
pub uninterp spec fn md5_of(data: Seq<u8>) -> Seq<u8>;

/// Computes the MD5 digest of `data` with `md5::compute`.
///
/// The result is named `md5_of` of the input bytes; the algorithm itself is
/// not restated.
#[verifier::external_body]
fn md5_digest(data: &[u8]) -> (r: [u8; 16])
    ensures
        r@ == md5_of(data@),
{
    md5::compute(data).0
}

/// The lowercase hexadecimal digit for `n < 16`.
pub open spec fn hex_digit(n: int) -> char {
    if n < 10 {
        crate::text::digit(n as nat)
    } else if n == 10 {
        'a'
    } else if n == 11 {
        'b'
    } else if n == 12 {
        'c'
    } else if n == 13 {
        'd'
    } else if n == 14 {
        'e'
    } else {
        'f'
    }
}

/// Two lowercase hexadecimal digits per byte, in order (the `{:x}` form of
/// a digest).
pub open spec fn hex_lower(b: Seq<u8>) -> Seq<char>
    decreases b.len(),
{
    if b.len() == 0 {
        Seq::empty()
    } else {
        hex_lower(b.drop_last()) + seq![hex_digit(b.last() as int / 16), hex_digit(b.last() as int % 16)]
    }
}

fn hex_digit_exec(n: u8) -> (r: char)
    requires
        n < 16,
    ensures
        r == hex_digit(n as int),
{
    match n {
        0 => '0',
        1 => '1',
        2 => '2',
        3 => '3',
        4 => '4',
        5 => '5',
        6 => '6',
        7 => '7',
        8 => '8',
        9 => '9',
        10 => 'a',
        11 => 'b',
        12 => 'c',
        13 => 'd',
        14 => 'e',
        _ => 'f',
    }
}

/// Formats a digest as lowercase hexadecimal, two digits per byte.
pub fn digest_hex(digest: &[u8]) -> (r: String)
    ensures
        r@ == hex_lower(digest@),
{
    let mut out: Vec<char> = Vec::new();
    let mut i: usize = 0;
    while i < digest.len()
        invariant
            i <= digest@.len(),
            out@ == hex_lower(digest@.take(i as int)),
        decreases digest@.len() - i,
    {
        let b = digest[i];
        out.push(hex_digit_exec(b / 16));
        out.push(hex_digit_exec(b % 16));
        proof {
            assert(digest@.take(i + 1).drop_last() =~= digest@.take(i as int));
        }
        i = i + 1;
    }
    proof {
        assert(digest@.take(digest@.len() as int) =~= digest@);
    }
    from_chars(&out)
}

/// Computes the BOINC nonce hash: the lowercase hexadecimal MD5 digest of
/// the UTF-8 bytes of the nonce followed by the password.
pub fn compute_nonce_hash(nonce: &str, password: &str) -> (r: String)
    ensures
        r@ == hex_lower(md5_of(encode_utf8(nonce@ + password@))),
{
    let mut joined = String::from_str(nonce);
    joined.append(password);
    let bytes = joined.as_str().as_bytes_vec();
    let digest = md5_digest(bytes.as_slice());
    digest_hex(&digest)
}

// ---------------------------------------------------------------------------
// Laws of task parsing
// ---------------------------------------------------------------------------

/// A result block whose `<active_task_state>` holds a positive integer
/// (1 is what an executing task reports) is an active task, listed as
/// running unless it is ready to report; a block with neither a true
/// `<active_task>` tag nor a positive state is not active.
pub proof fn lemma_task_state_decides_active(b: Seq<char>)
    ensures
        ({
            let state = tag_value(b, "active_task_state"@);
            &&& (state is Some && parse_i32(trim(state->0)) is Some && parse_i32(trim(state->0))->0
                >= 1) ==> task_of(b).active_task && (!bool_tag(b, "ready_to_report"@)
                ==> task_of(b).status == ParsedTaskStatus::Running)
            &&& (!bool_tag(b, "active_task"@) && (state is None || parse_i32(trim(state->0)) is None
                || parse_i32(trim(state->0))->0 <= 0)) ==> !task_of(b).active_task
        }),
{
}

/// `1`, as a task state, reads as the integer 1.
pub proof fn lemma_state_one_reads_as_one()
    ensures
        parse_i32("1"@) == Some(1i32),
{
    reveal_strlit("1");
    let d = crate::text::unsigned_part("1"@, true);
    assert(d =~= "1"@);
    assert(d.drop_last() =~= Seq::<char>::empty());
    assert(crate::text::digits_value(d.drop_last()) == 0);
    assert(d.last() == '1');
    assert(crate::text::digits_value(d) == 1);
}

} // verus!
