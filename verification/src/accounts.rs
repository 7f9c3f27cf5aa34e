//! Accounts, endpoints, reports and moderation records, with the bounds
//! every message that carries them must keep.

use vstd::prelude::*;

use crate::ids::{id_counter, AccountId, ActorId};
use crate::text::{has_control, str_has_control, text_len, utf8_len};

verus! {

broadcast use vstd::string::group_string_axioms;

pub const MAX_CHAT_BYTES: usize = 4_096;
pub const MAX_REPORT_BYTES: usize = 1_024;
pub const MAX_REPORT_CHARACTERS: usize = 512;
pub const MAX_NAME_BYTES: usize = 256;
pub const MAX_NAME_CHARACTERS: usize = 64;
pub const MAX_ADMIN_ACCOUNTS_PER_PAGE: u16 = 128;
pub const MAX_CHARACTERS_PER_ACCOUNT: usize = 64;
pub const MAX_ADMIN_INVENTORY_PER_PAGE: u16 = 8;
pub const MAX_REPORTS_PER_PAGE: u16 = 32;
pub const MAX_MODERATION_HISTORY_PER_PAGE: u16 = 128;
pub const MAX_MODERATION_DURATION_SECONDS: u32 = 86_400;
/// Database sequences are positive and fit in an `i64`.
pub const MAX_DB_SEQUENCE: u64 = 0x7fff_ffff_ffff_ffff;

/// A client's public key.
#[derive(Clone, Copy, Debug, PartialEq, Eq, Hash, PartialOrd, Ord)]
pub struct EndpointIdentity(pub [u8; 32]);

#[derive(Clone, Copy, Debug, PartialEq, Eq, Structural)]
pub enum AccountRole {
    Player,
    Moderator,
    Administrator,
}

#[derive(Clone, Copy, Debug, PartialEq, Eq, Structural)]
pub enum AccountStatus {
    InitialEnrollment,
    Enabled,
    Disabled,
    Banned,
    RecoveryLocked,
}

#[derive(Clone, Copy, Debug, PartialEq, Eq, Structural)]
pub enum EndpointBindingState {
    Pending,
    Active,
    Revoked,
}

#[derive(Clone, Copy, Debug, PartialEq, Eq)]
pub struct EndpointBindingSummary {
    pub endpoint: EndpointIdentity,
    pub state: EndpointBindingState,
    pub pending_expires_utc: Option<i64>,
}

#[derive(Clone, Copy, Debug, PartialEq, Eq)]
pub enum AccountKeyRequest {
    List,
    Add { endpoint: EndpointIdentity },
    Revoke { endpoint: EndpointIdentity },
}

#[derive(Clone, Copy, Debug, PartialEq, Eq, Structural)]
pub enum AccountKeyRejection {
    AccountUnavailable,
    EndpointAlreadyBound,
    InvalidEndpoint,
    EndpointNotRevocable,
    LastActiveEndpoint,
    TooManyBindings,
    ServerBusy,
}

#[derive(Clone, Debug, PartialEq, Eq)]
pub enum AccountKeyResponse {
    Bindings(Vec<EndpointBindingSummary>),
    Pending(EndpointBindingSummary),
    Revoked { endpoint: EndpointIdentity },
    Rejected(AccountKeyRejection),
}

#[derive(Clone, Copy, Debug, PartialEq, Eq, Structural, PartialOrd, Ord)]
pub struct ReportId(pub u64);

#[derive(Clone, Copy, Debug, PartialEq, Eq, Structural)]
pub enum ReportReason {
    Chat,
    Harassment,
    Exploit,
    Other,
}

#[derive(Clone, Copy, Debug, PartialEq, Eq, Structural)]
pub enum ReportState {
    Open,
    Actioned,
    Dismissed,
}

#[derive(Clone, Debug, PartialEq, Eq)]
pub struct PlayerReport {
    pub target_actor: ActorId,
    pub reason: ReportReason,
    pub details: String,
}

#[derive(Clone, Copy, Debug, PartialEq, Eq, Structural)]
pub enum ReportRejection {
    CannotReportSelf,
    TargetUnavailable,
    InvalidReport,
    RateLimited,
    ServerBusy,
}

#[derive(Clone, Copy, Debug, PartialEq, Eq)]
pub enum ReportResponse {
    Accepted { report_id: ReportId },
    Rejected(ReportRejection),
}

#[derive(Clone, Debug, PartialEq, Eq)]
pub struct ReportSummary {
    pub report_id: ReportId,
    pub created_utc: i64,
    pub reporter_account: AccountId,
    pub reporter_actor: ActorId,
    pub reporter_character: String,
    pub target_account: AccountId,
    pub target_actor: ActorId,
    pub target_character: String,
    pub reason: ReportReason,
    pub details: String,
    pub state: ReportState,
    pub resolved_utc: Option<i64>,
    pub resolved_by_account: Option<AccountId>,
    pub resolution_audit_sequence: Option<u64>,
}

#[derive(Clone, Copy, Debug, PartialEq, Eq, Structural)]
pub struct AdminHello {
    pub protocol_version: u16,
}

#[derive(Clone, Debug, PartialEq, Eq)]
pub struct AdminAccountSummary {
    pub account_id: AccountId,
    pub display_name: String,
    pub role: AccountRole,
    pub status: AccountStatus,
    pub suspended_until_utc: Option<i64>,
    pub muted_until_utc: Option<i64>,
}

#[derive(Clone, Copy, Debug, PartialEq, Eq, Structural)]
pub enum ModerationKind {
    Kick,
    Suspension,
    Mute,
}

#[derive(Clone, Copy, Debug, PartialEq, Eq)]
pub struct ModerationHistoryEntry {
    pub history_id: u64,
    pub security_audit_sequence: u64,
    pub occurred_utc: i64,
    pub operator_account: AccountId,
    pub target_account: AccountId,
    pub kind: ModerationKind,
    pub until_utc: Option<i64>,
}

#[derive(Clone, Copy, Debug, PartialEq, Eq)]
pub enum ChatRejection {
    Muted { until_utc: i64 },
    ServerBusy,
}

/// Unicode `White_Space`, the set `char::is_whitespace` tests.
pub open spec fn is_white_space(c: char) -> bool {
    let u = c as u32;
    ||| 0x09 <= u <= 0x0d
    ||| u == 0x20 || u == 0x85 || u == 0xa0 || u == 0x1680
    ||| 0x2000 <= u <= 0x200a
    ||| u == 0x2028 || u == 0x2029 || u == 0x202f || u == 0x205f || u == 0x3000
}

/// Whether some character is not white space: the text does not trim to
/// nothing.
pub open spec fn has_visible(s: Seq<char>) -> bool {
    exists|i: int| 0 <= i < s.len() && !is_white_space(#[trigger] s[i])
}

/// A display or character name: 1 to 64 characters, at most 256 bytes, no
/// control characters.
pub open spec fn name_ok(s: Seq<char>) -> bool {
    &&& s.len() > 0
    &&& utf8_len(s) <= MAX_NAME_BYTES
    &&& s.len() <= MAX_NAME_CHARACTERS
    &&& !has_control(s)
}

/// Report details: 1 to 512 characters, at most 1 024 bytes, no control
/// characters.
pub open spec fn report_details_ok(s: Seq<char>) -> bool {
    &&& s.len() > 0
    &&& utf8_len(s) <= MAX_REPORT_BYTES
    &&& s.len() <= MAX_REPORT_CHARACTERS
    &&& !has_control(s)
}

/// Chat text: something besides white space, at most 4 096 bytes, no control
/// characters.
pub open spec fn chat_text_ok(s: Seq<char>) -> bool {
    &&& has_visible(s)
    &&& utf8_len(s) <= MAX_CHAT_BYTES
    &&& !has_control(s)
}

pub open spec fn db_sequence_ok(sequence: u64) -> bool {
    0 < sequence <= MAX_DB_SEQUENCE
}

/// A pending binding carries a positive expiry; any other carries none.
pub open spec fn binding_ok(b: EndpointBindingSummary) -> bool {
    if b.state == EndpointBindingState::Pending {
        b.pending_expires_utc matches Some(e) && e > 0
    } else {
        b.pending_expires_utc is None
    }
}

pub open spec fn bindings_ok(bindings: Seq<EndpointBindingSummary>) -> bool {
    &&& bindings.len() <= 256
    &&& forall|i: int| 0 <= i < bindings.len() ==> binding_ok(#[trigger] bindings[i])
}

pub open spec fn positive_or_none(t: Option<i64>) -> bool {
    t matches Some(v) ==> v > 0
}

pub open spec fn admin_account_ok(a: AdminAccountSummary) -> bool {
    &&& id_counter(a.account_id.0) > 0
    &&& name_ok(a.display_name@)
    &&& positive_or_none(a.suspended_until_utc)
    &&& positive_or_none(a.muted_until_utc)
}

/// An open report is unresolved; a closed one records when, by whom and
/// under which audit entry it was resolved.
pub open spec fn report_resolution_ok(r: ReportSummary) -> bool {
    match r.state {
        ReportState::Open => r.resolved_utc is None && r.resolved_by_account is None
            && r.resolution_audit_sequence is None,
        ReportState::Actioned | ReportState::Dismissed => {
            &&& r.resolved_utc matches Some(t) && t > 0
            &&& r.resolved_by_account matches Some(a) && id_counter(a.0) > 0
            &&& r.resolution_audit_sequence matches Some(s) && db_sequence_ok(s)
        },
    }
}

pub open spec fn report_summary_ok(r: ReportSummary) -> bool {
    &&& db_sequence_ok(r.report_id.0)
    &&& r.created_utc > 0
    &&& id_counter(r.reporter_account.0) > 0
    &&& id_counter(r.reporter_actor.0) > 0
    &&& name_ok(r.reporter_character@)
    &&& id_counter(r.target_account.0) > 0
    &&& id_counter(r.target_actor.0) > 0
    &&& name_ok(r.target_character@)
    &&& report_details_ok(r.details@)
    &&& report_resolution_ok(r)
}

/// A kick has no end; a suspension or mute ends at a positive time, if at
/// all.
pub open spec fn moderation_until_ok(kind: ModerationKind, until: Option<i64>) -> bool {
    match kind {
        ModerationKind::Kick => until is None,
        ModerationKind::Suspension | ModerationKind::Mute => positive_or_none(until),
    }
}

pub open spec fn moderation_history_ok(e: ModerationHistoryEntry) -> bool {
    &&& db_sequence_ok(e.history_id)
    &&& db_sequence_ok(e.security_audit_sequence)
    &&& e.occurred_utc > 0
    &&& id_counter(e.operator_account.0) > 0
    &&& id_counter(e.target_account.0) > 0
    &&& moderation_until_ok(e.kind, e.until_utc)
}

pub fn char_is_white_space(c: char) -> (r: bool)
    ensures
        r == is_white_space(c),
{
    let u = c as u32;
    (0x09 <= u && u <= 0x0d) || u == 0x20 || u == 0x85 || u == 0xa0 || u == 0x1680 || (0x2000 <= u && u
        <= 0x200a) || u == 0x2028 || u == 0x2029 || u == 0x202f || u == 0x205f || u == 0x3000
}

/// Whether the text holds a character that is not white space.
pub fn str_has_visible(s: &str) -> (r: bool)
    ensures
        r == has_visible(s@),
{
    let mut found = false;
    for c in it: s.chars()
        invariant
            it.seq() == s@,
            found == exists|i: int| 0 <= i < it.index() && !is_white_space(#[trigger] s@[i]),
    {
        if !char_is_white_space(c) {
            found = true;
        }
    }
    found
}

/// Whether the text has at most `limit` characters.
pub fn chars_at_most(s: &str, limit: usize) -> (r: bool)
    ensures
        r == (s@.len() <= limit),
{
    let mut count: usize = 0;
    for c in it: s.chars()
        invariant
            it.seq() == s@,
            count == it.index(),
            count <= limit,
    {
        if count == limit {
            return false;
        }
        count = count + 1;
    }
    true
}

fn bounded_text(s: &str, max_bytes: usize, max_chars: usize) -> (r: bool)
    ensures
        r == (s@.len() > 0 && utf8_len(s@) <= max_bytes && s@.len() <= max_chars && !has_control(s@)),
{
    let bytes = text_len(s);
    if bytes == 0 || bytes > max_bytes || !chars_at_most(s, max_chars) {
        proof {
            if bytes == 0 && s@.len() > 0 {
                vstd::utf8::encode_utf8_decode_utf8(s@);
                assert(vstd::utf8::encode_utf8(s@) =~= Seq::<u8>::empty());
            }
        }
        return false;
    }
    !str_has_control(s)
}

pub fn valid_display_name(name: &str) -> (r: bool)
    ensures
        r == name_ok(name@),
{
    bounded_text(name, MAX_NAME_BYTES, MAX_NAME_CHARACTERS)
}

pub fn valid_character_name(name: &str) -> (r: bool)
    ensures
        r == name_ok(name@),
{
    bounded_text(name, MAX_NAME_BYTES, MAX_NAME_CHARACTERS)
}

pub fn valid_report_details(details: &str) -> (r: bool)
    ensures
        r == report_details_ok(details@),
{
    bounded_text(details, MAX_REPORT_BYTES, MAX_REPORT_CHARACTERS)
}

pub fn valid_chat_text(text: &str) -> (r: bool)
    ensures
        r == chat_text_ok(text@),
{
    str_has_visible(text) && text_len(text) <= MAX_CHAT_BYTES && !str_has_control(text)
}

pub fn valid_db_sequence(sequence: u64) -> (r: bool)
    ensures
        r == db_sequence_ok(sequence),
{
    sequence > 0 && sequence <= MAX_DB_SEQUENCE
}

pub fn valid_binding(binding: &EndpointBindingSummary) -> (r: bool)
    ensures
        r == binding_ok(*binding),
{
    if binding.state == EndpointBindingState::Pending {
        match binding.pending_expires_utc {
            Some(e) => e > 0,
            None => false,
        }
    } else {
        binding.pending_expires_utc.is_none()
    }
}

pub fn valid_bindings(bindings: &Vec<EndpointBindingSummary>) -> (r: bool)
    ensures
        r == bindings_ok(bindings@),
{
    if bindings.len() > 256 {
        return false;
    }
    let mut i: usize = 0;
    while i < bindings.len()
        invariant
            i <= bindings@.len(),
            forall|j: int| 0 <= j < i ==> binding_ok(#[trigger] bindings@[j]),
        decreases bindings.len() - i,
    {
        if !valid_binding(&bindings[i]) {
            return false;
        }
        i = i + 1;
    }
    true
}

fn positive_or_none_exec(t: Option<i64>) -> (r: bool)
    ensures
        r == positive_or_none(t),
{
    match t {
        Some(v) => v > 0,
        None => true,
    }
}

pub fn valid_admin_account(account: &AdminAccountSummary) -> (r: bool)
    ensures
        r == admin_account_ok(*account),
{
    account.account_id.counter() > 0 && valid_display_name(account.display_name.as_str())
        && positive_or_none_exec(account.suspended_until_utc) && positive_or_none_exec(account.muted_until_utc)
}

pub fn valid_report_summary(report: &ReportSummary) -> (r: bool)
    ensures
        r == report_summary_ok(*report),
{
    let resolution = match report.state {
        ReportState::Open => report.resolved_utc.is_none() && report.resolved_by_account.is_none()
            && report.resolution_audit_sequence.is_none(),
        ReportState::Actioned | ReportState::Dismissed => {
            (match report.resolved_utc {
                Some(t) => t > 0,
                None => false,
            }) && (match report.resolved_by_account {
                Some(a) => a.counter() > 0,
                None => false,
            }) && (match report.resolution_audit_sequence {
                Some(s) => valid_db_sequence(s),
                None => false,
            })
        },
    };
    valid_db_sequence(report.report_id.0) && report.created_utc > 0 && report.reporter_account.counter() > 0
        && report.reporter_actor.counter() > 0 && valid_character_name(report.reporter_character.as_str())
        && report.target_account.counter() > 0 && report.target_actor.counter() > 0
        && valid_character_name(report.target_character.as_str()) && valid_report_details(report.details.as_str())
        && resolution
}

pub fn valid_moderation_history(entry: &ModerationHistoryEntry) -> (r: bool)
    ensures
        r == moderation_history_ok(*entry),
{
    let until = match entry.kind {
        ModerationKind::Kick => entry.until_utc.is_none(),
        ModerationKind::Suspension | ModerationKind::Mute => positive_or_none_exec(entry.until_utc),
    };
    valid_db_sequence(entry.history_id) && valid_db_sequence(entry.security_audit_sequence)
        && entry.occurred_utc > 0 && entry.operator_account.counter() > 0 && entry.target_account.counter() > 0
        && until
}

} // verus!
