//! Control-stream messages for enrollment, characters, accounts, reports,
//! administration and chat, and the bounds a frame must keep.

use vstd::prelude::*;

use crate::accounts::{
    admin_account_ok, binding_ok, bindings_ok, chat_text_ok, db_sequence_ok, moderation_history_ok, name_ok,
    positive_or_none, report_details_ok, report_summary_ok, valid_admin_account, valid_binding, valid_bindings,
    valid_character_name, valid_chat_text, valid_db_sequence, valid_display_name, valid_moderation_history,
    valid_report_details, valid_report_summary, AccountKeyRequest, AccountKeyResponse, AccountRole, AccountStatus,
    AdminAccountSummary, AdminHello, ChatRejection, EndpointBindingState, EndpointBindingSummary, EndpointIdentity,
    ModerationHistoryEntry, ModerationKind, PlayerReport, ReportId, ReportResponse, ReportState, ReportSummary,
    MAX_ADMIN_ACCOUNTS_PER_PAGE, MAX_ADMIN_INVENTORY_PER_PAGE, MAX_CHARACTERS_PER_ACCOUNT,
    MAX_MODERATION_DURATION_SECONDS, MAX_MODERATION_HISTORY_PER_PAGE, MAX_REPORTS_PER_PAGE,
};
use crate::characters::CharacterCreationStatsV1;
use crate::commands::{client_command_ok, valid_client_command, ClientCommand};
use crate::geometry::{direction_is_valid, HeldInputSequence, HorizontalDirection};
use crate::ids::{id_counter, id_namespace, AccountId, ActorId, ItemId};
use crate::text::{text_len, utf8_len};
use crate::time::SimTick;

verus! {

pub const PROTOCOL_VERSION: u16 = 132;
pub const MAX_CONTROL_ENCODED: usize = 65_536;
pub const MAX_CONTROL_DECODED: usize = 262_144;
pub const MAX_BULK_ENCODED: usize = 8_388_608;
pub const MAX_BULK_DECODED: usize = 33_554_432;
pub const REQUIRED_DATAGRAM_SIZE: usize = 1_024;
pub const MAX_DATAGRAM_SIZE: usize = 1_200;
pub const MAX_ENABLED_MODS: usize = 256;
pub const MAX_MOD_ID_BYTES: usize = 512;
/// A baseline commit is a full hexadecimal SHA-1.
pub const BASELINE_COMMIT_BYTES: usize = 40;

#[derive(Clone, Debug, PartialEq, Eq)]
pub struct ContentIdentity {
    pub baseline_commit: String,
    pub manifest_hash: [u8; 32],
    pub enabled_mods: Vec<String>,
}

#[derive(Clone, Debug, PartialEq, Eq)]
pub struct ClientHello {
    pub protocol_version: u16,
    pub content: ContentIdentity,
}

#[derive(Clone, Debug, PartialEq, Eq)]
pub struct ServerHello {
    pub protocol_version: u16,
    pub content: ContentIdentity,
    pub tick: SimTick,
}

#[derive(Clone, Debug, PartialEq, Eq)]
pub struct EnrollmentAccepted {
    pub account_id: AccountId,
    pub display_name: String,
    pub role: AccountRole,
}

#[derive(Clone, Copy, Debug, PartialEq, Eq, Structural)]
pub enum EnrollmentRejection {
    UnknownIdentity,
    Expired,
    AccountUnavailable,
    ServerBusy,
    ProtocolMismatch,
}

#[derive(Clone, Debug, PartialEq, Eq)]
pub struct CharacterSummary {
    pub actor_id: ActorId,
    pub name: String,
}

#[derive(Clone, Debug, PartialEq, Eq)]
pub enum CharacterRequest {
    List,
    Create { name: String, base_stats: CharacterCreationStatsV1 },
    Select { actor_id: ActorId },
}

#[derive(Clone, Copy, Debug, PartialEq, Eq, Structural)]
pub enum GameplayRejection {
    AuthenticationRequired,
    ContentMismatch,
    InvalidCharacterName,
    CharacterNotOwned,
    CharacterAlreadyExists,
    NoSpawnLocation,
    SessionAlreadyActive,
    ServerFull,
    ServerBusy,
    UnexpectedMessage,
}

#[derive(Clone, Debug, PartialEq, Eq)]
pub struct ChatMessage {
    pub from_actor: ActorId,
    pub from_character: String,
    pub text: String,
    pub tick: SimTick,
}

#[derive(Clone, Debug, PartialEq, Eq)]
pub enum AdminRequest {
    ListAccounts { after: Option<AccountId>, limit: u16 },
    ListCharacters { account_id: AccountId },
    InspectCharacter { actor_id: ActorId, inventory_after: Option<ItemId>, inventory_limit: u16 },
    ListReports { state: Option<ReportState>, after: Option<ReportId>, limit: u16 },
    ListModerationHistory { account_id: AccountId, after: Option<u64>, limit: u16 },
    SetRole { account_id: AccountId, role: AccountRole },
    SetStatus { account_id: AccountId, status: AccountStatus },
    SetSuspension { account_id: AccountId, duration_seconds: Option<u32> },
    SetMute { account_id: AccountId, duration_seconds: Option<u32> },
    Kick { account_id: AccountId },
    TransferCharacter { actor_id: ActorId, new_owner: AccountId },
    SetReportState { report_id: ReportId, state: ReportState },
    CreateAccount { display_name: String, role: AccountRole, endpoint: EndpointIdentity },
    ListEndpoints { account_id: AccountId },
    AddEndpoint { account_id: AccountId, endpoint: EndpointIdentity },
    RevokeEndpoint { account_id: AccountId, endpoint: EndpointIdentity },
}

#[derive(Clone, Copy, Debug, PartialEq, Eq, Structural)]
pub enum AdminRejection {
    AuthenticationRequired,
    AdministratorRequired,
    ModeratorRequired,
    ProtocolMismatch,
    AccountUnavailable,
    CannotTargetSelf,
    InvalidTransition,
    LastAdministrator,
    TargetRoleNotAllowed,
    CharacterUnavailable,
    CharacterNameConflict,
    TooManyCharacters,
    InvalidDisplayName,
    InvalidEndpoint,
    EndpointAlreadyBound,
    EndpointNotRevocable,
    LastActiveEndpoint,
    TooManyBindings,
    ServerBusy,
    UnexpectedMessage,
}

/// Administration replies whose bounds this library checks.
#[derive(Clone, Debug, PartialEq, Eq)]
pub enum AdminResponse {
    Ready { account_id: AccountId, role: AccountRole },
    Accounts { accounts: Vec<AdminAccountSummary>, next_after: Option<AccountId> },
    AccountUpdated(AdminAccountSummary),
    Characters {
        account_id: AccountId,
        characters: Vec<CharacterSummary>,
        gameplay_session_active: bool,
        controlled_actor: Option<ActorId>,
    },
    Reports { reports: Vec<ReportSummary>, next_after: Option<ReportId> },
    ReportUpdated(ReportSummary),
    AccountCreated { account: AdminAccountSummary, pending_endpoint: EndpointBindingSummary },
    Endpoints { account_id: AccountId, bindings: Vec<EndpointBindingSummary> },
    EndpointPending { account_id: AccountId, binding: EndpointBindingSummary },
    EndpointRevoked { account_id: AccountId, endpoint: EndpointIdentity },
    ModerationHistory { account_id: AccountId, entries: Vec<ModerationHistoryEntry>, next_after: Option<u64> },
    ModerationApplied { account: AdminAccountSummary, kind: ModerationKind, until_utc: Option<i64> },
    CharacterTransferred { actor_id: ActorId, previous_owner: AccountId, new_owner: AccountId },
    Rejected(AdminRejection),
}

/// Control-stream messages whose bounds this library checks.
#[derive(Clone, Debug, PartialEq, Eq)]
pub enum ControlMessage {
    EnrollmentRequest { protocol_version: u16 },
    EnrollmentAccepted(EnrollmentAccepted),
    EnrollmentRejected(EnrollmentRejection),
    CharacterRequest(CharacterRequest),
    CharacterList(Vec<CharacterSummary>),
    CharacterReady { actor_id: ActorId },
    GameplayRejected(GameplayRejection),
    AccountKeyRequest(AccountKeyRequest),
    AccountKeyResponse(AccountKeyResponse),
    AdminHello(AdminHello),
    AdminRequest(AdminRequest),
    AdminResponse(AdminResponse),
    ReportSubmit(PlayerReport),
    ReportResponse(ReportResponse),
    ClientHello(ClientHello),
    ServerHello(ServerHello),
    Command(ClientCommand),
    EventStreamReady { actor_id: ActorId },
    SnapshotStreamReady { actor_id: ActorId, sequence: u64, tick: SimTick, encoded_length: u32, decoded_length: u32 },
    ChatSend { text: String },
    ChatReceived(ChatMessage),
    ChatRejected(ChatRejection),
    Heartbeat { tick: SimTick },
}

/// A full baseline commit, at most 256 mods, each id at most 512 bytes.
pub open spec fn content_ok(c: ContentIdentity) -> bool {
    &&& utf8_len(c.baseline_commit@) == BASELINE_COMMIT_BYTES
    &&& c.enabled_mods@.len() <= MAX_ENABLED_MODS
    &&& forall|i: int| 0 <= i < c.enabled_mods@.len() ==> utf8_len((#[trigger] c.enabled_mods@[i])@) <= MAX_MOD_ID_BYTES
}

pub open spec fn character_names_ok(characters: Seq<CharacterSummary>) -> bool {
    forall|i: int| 0 <= i < characters.len() ==> name_ok((#[trigger] characters[i]).name@)
}

pub open spec fn page_limit_ok(limit: u16, maximum: u16) -> bool {
    0 < limit <= maximum
}

pub open spec fn duration_ok(duration: Option<u32>) -> bool {
    duration matches Some(d) ==> 0 < d <= MAX_MODERATION_DURATION_SECONDS
}

pub open spec fn admin_request_ok(r: AdminRequest) -> bool {
    match r {
        AdminRequest::ListAccounts { limit, .. } => page_limit_ok(limit, MAX_ADMIN_ACCOUNTS_PER_PAGE),
        AdminRequest::InspectCharacter { actor_id, inventory_after, inventory_limit } => {
            &&& id_counter(actor_id.0) > 0
            &&& page_limit_ok(inventory_limit, MAX_ADMIN_INVENTORY_PER_PAGE)
            &&& (inventory_after matches Some(item) ==> id_counter(item.0) > 0 && id_namespace(item.0)
                == id_namespace(actor_id.0))
        },
        AdminRequest::ListReports { after, limit, .. } => {
            &&& page_limit_ok(limit, MAX_REPORTS_PER_PAGE)
            &&& (after matches Some(id) ==> db_sequence_ok(id.0))
        },
        AdminRequest::SetReportState { report_id, state } => db_sequence_ok(report_id.0) && state
            != ReportState::Open,
        AdminRequest::CreateAccount { display_name, .. } => name_ok(display_name@),
        AdminRequest::ListEndpoints { account_id } | AdminRequest::AddEndpoint { account_id, .. }
        | AdminRequest::RevokeEndpoint { account_id, .. } => id_counter(account_id.0) > 0,
        AdminRequest::ListModerationHistory { after, limit, .. } => {
            &&& page_limit_ok(limit, MAX_MODERATION_HISTORY_PER_PAGE)
            &&& (after matches Some(h) ==> db_sequence_ok(h))
        },
        AdminRequest::SetStatus { status, .. } => status == AccountStatus::Enabled || status
            == AccountStatus::Disabled || status == AccountStatus::Banned,
        AdminRequest::SetSuspension { duration_seconds, .. } | AdminRequest::SetMute { duration_seconds, .. } => {
            duration_ok(duration_seconds)
        },
        _ => true,
    }
}

pub open spec fn admin_accounts_ok(accounts: Seq<AdminAccountSummary>) -> bool {
    &&& accounts.len() <= MAX_ADMIN_ACCOUNTS_PER_PAGE
    &&& forall|i: int| 0 <= i < accounts.len() ==> admin_account_ok(#[trigger] accounts[i])
}

pub open spec fn owned_character_ok(c: CharacterSummary, account_id: AccountId) -> bool {
    &&& id_counter(c.actor_id.0) > 0
    &&& id_namespace(c.actor_id.0) == id_namespace(account_id.0)
    &&& name_ok(c.name@)
}

/// At most 64 characters of the account; a controlled actor only during a
/// session, and then one of the listed characters.
pub open spec fn account_characters_ok(
    account_id: AccountId,
    characters: Seq<CharacterSummary>,
    active: bool,
    controlled: Option<ActorId>,
) -> bool {
    &&& characters.len() <= MAX_CHARACTERS_PER_ACCOUNT
    &&& id_counter(account_id.0) > 0
    &&& forall|i: int| 0 <= i < characters.len() ==> owned_character_ok(#[trigger] characters[i], account_id)
    &&& (controlled is Some ==> active)
    &&& (controlled matches Some(a) ==> exists|i: int| 0 <= i < characters.len() && (#[trigger] characters[i]).actor_id
        == a)
}

pub open spec fn reports_ok(reports: Seq<ReportSummary>) -> bool {
    &&& reports.len() <= MAX_REPORTS_PER_PAGE
    &&& forall|i: int| 0 <= i < reports.len() ==> report_summary_ok(#[trigger] reports[i])
}

pub open spec fn history_ok(entries: Seq<ModerationHistoryEntry>) -> bool {
    &&& entries.len() <= MAX_MODERATION_HISTORY_PER_PAGE
    &&& forall|i: int| 0 <= i < entries.len() ==> moderation_history_ok(#[trigger] entries[i])
}

/// What a moderation that was just applied reports as its end.
pub open spec fn applied_until_ok(kind: ModerationKind, until: Option<i64>) -> bool {
    match kind {
        ModerationKind::Kick => until is None,
        ModerationKind::Suspension | ModerationKind::Mute => positive_or_none(until),
    }
}

pub open spec fn admin_response_ok(r: AdminResponse) -> bool {
    match r {
        AdminResponse::Accounts { accounts, .. } => admin_accounts_ok(accounts@),
        AdminResponse::AccountUpdated(account) => admin_account_ok(account),
        AdminResponse::AccountCreated { account, pending_endpoint } => {
            &&& admin_account_ok(account)
            &&& account.status == AccountStatus::InitialEnrollment
            &&& account.suspended_until_utc is None
            &&& account.muted_until_utc is None
            &&& pending_endpoint.state == EndpointBindingState::Pending
            &&& binding_ok(pending_endpoint)
        },
        AdminResponse::Endpoints { account_id, bindings } => id_counter(account_id.0) > 0 && bindings_ok(
            bindings@,
        ),
        AdminResponse::EndpointPending { account_id, binding } => id_counter(account_id.0) > 0 && binding.state
            == EndpointBindingState::Pending && binding_ok(binding),
        AdminResponse::EndpointRevoked { account_id, .. } => id_counter(account_id.0) > 0,
        AdminResponse::ModerationApplied { account, kind, until_utc } => admin_account_ok(account)
            && applied_until_ok(kind, until_utc),
        AdminResponse::Characters { account_id, characters, gameplay_session_active, controlled_actor } => {
            account_characters_ok(account_id, characters@, gameplay_session_active, controlled_actor)
        },
        AdminResponse::Reports { reports, next_after } => reports_ok(reports@) && (next_after matches Some(id)
            ==> db_sequence_ok(id.0)),
        AdminResponse::ReportUpdated(report) => report_summary_ok(report),
        AdminResponse::ModerationHistory { entries, next_after, .. } => history_ok(entries@) && (next_after matches Some(
            h,
        ) ==> db_sequence_ok(h)),
        AdminResponse::Ready { role, .. } => role != AccountRole::Player,
        _ => true,
    }
}

pub open spec fn account_key_response_ok(r: AccountKeyResponse) -> bool {
    match r {
        AccountKeyResponse::Bindings(bindings) => bindings_ok(bindings@),
        AccountKeyResponse::Pending(binding) => binding.state == EndpointBindingState::Pending && (
        binding.pending_expires_utc matches Some(e) && e > 0),
        _ => true,
    }
}

/// Whether a message keeps the protocol's bounds, variant by variant. An
/// interaction choice in a command is at most `max_choice_id_bytes` bytes.
pub open spec fn control_message_ok(m: ControlMessage, max_choice_id_bytes: nat) -> bool {
    match m {
        ControlMessage::Command(command) => client_command_ok(command, max_choice_id_bytes),
        ControlMessage::EnrollmentAccepted(accepted) => name_ok(accepted.display_name@),
        ControlMessage::CharacterRequest(CharacterRequest::Create { name, base_stats }) => name_ok(name@)
            && base_stats.spec_is_valid(),
        ControlMessage::CharacterList(characters) => characters@.len() <= MAX_CHARACTERS_PER_ACCOUNT
            && character_names_ok(characters@),
        ControlMessage::ReportSubmit(report) => id_counter(report.target_actor.0) > 0 && report_details_ok(
            report.details@,
        ),
        ControlMessage::ReportResponse(ReportResponse::Accepted { report_id }) => db_sequence_ok(report_id.0),
        ControlMessage::AccountKeyResponse(response) => account_key_response_ok(response),
        ControlMessage::AdminRequest(request) => admin_request_ok(request),
        ControlMessage::AdminResponse(response) => admin_response_ok(response),
        ControlMessage::ChatRejected(ChatRejection::Muted { until_utc }) => until_utc > 0,
        ControlMessage::ClientHello(hello) => content_ok(hello.content),
        ControlMessage::ServerHello(hello) => content_ok(hello.content),
        ControlMessage::ChatSend { text } => chat_text_ok(text@),
        ControlMessage::ChatReceived(message) => name_ok(message.from_character@) && chat_text_ok(message.text@),
        ControlMessage::SnapshotStreamReady { encoded_length, decoded_length, .. } => encoded_length
            <= MAX_BULK_ENCODED && decoded_length <= MAX_BULK_DECODED,
        _ => true,
    }
}

/// Whether a client's or server's content identity keeps its bounds.
pub fn valid_content(content: &ContentIdentity) -> (r: bool)
    ensures
        r == content_ok(*content),
{
    if text_len(content.baseline_commit.as_str()) != BASELINE_COMMIT_BYTES || content.enabled_mods.len()
        > MAX_ENABLED_MODS {
        return false;
    }
    let mut i: usize = 0;
    while i < content.enabled_mods.len()
        invariant
            i <= content.enabled_mods@.len(),
            forall|j: int| 0 <= j < i ==> utf8_len((#[trigger] content.enabled_mods@[j])@) <= MAX_MOD_ID_BYTES,
        decreases content.enabled_mods.len() - i,
    {
        if text_len(content.enabled_mods[i].as_str()) > MAX_MOD_ID_BYTES {
            return false;
        }
        i = i + 1;
    }
    true
}

fn valid_character_names(characters: &Vec<CharacterSummary>) -> (r: bool)
    ensures
        r == character_names_ok(characters@),
{
    let mut i: usize = 0;
    while i < characters.len()
        invariant
            i <= characters@.len(),
            forall|j: int| 0 <= j < i ==> name_ok((#[trigger] characters@[j]).name@),
        decreases characters.len() - i,
    {
        if !valid_character_name(characters[i].name.as_str()) {
            return false;
        }
        i = i + 1;
    }
    true
}

fn valid_duration(duration: Option<u32>) -> (r: bool)
    ensures
        r == duration_ok(duration),
{
    match duration {
        Some(d) => 0 < d && d <= MAX_MODERATION_DURATION_SECONDS,
        None => true,
    }
}

/// Whether an administration request keeps its bounds.
pub fn admin_request_is_valid(request: &AdminRequest) -> (r: bool)
    ensures
        r == admin_request_ok(*request),
{
    match request {
        AdminRequest::ListAccounts { limit, .. } => 0 < *limit && *limit <= MAX_ADMIN_ACCOUNTS_PER_PAGE,
        AdminRequest::InspectCharacter { actor_id, inventory_after, inventory_limit } => {
            actor_id.counter() > 0 && 0 < *inventory_limit && *inventory_limit <= MAX_ADMIN_INVENTORY_PER_PAGE
                && match inventory_after {
                Some(item) => item.counter() > 0 && item.world_namespace() == actor_id.world_namespace(),
                None => true,
            }
        },
        AdminRequest::ListReports { after, limit, .. } => {
            0 < *limit && *limit <= MAX_REPORTS_PER_PAGE && match after {
                Some(id) => valid_db_sequence(id.0),
                None => true,
            }
        },
        AdminRequest::SetReportState { report_id, state } => valid_db_sequence(report_id.0) && *state
            != ReportState::Open,
        AdminRequest::CreateAccount { display_name, .. } => valid_display_name(display_name.as_str()),
        AdminRequest::ListEndpoints { account_id } | AdminRequest::AddEndpoint { account_id, .. }
        | AdminRequest::RevokeEndpoint { account_id, .. } => account_id.counter() > 0,
        AdminRequest::ListModerationHistory { after, limit, .. } => {
            0 < *limit && *limit <= MAX_MODERATION_HISTORY_PER_PAGE && match after {
                Some(h) => valid_db_sequence(*h),
                None => true,
            }
        },
        AdminRequest::SetStatus { status, .. } => *status == AccountStatus::Enabled || *status
            == AccountStatus::Disabled || *status == AccountStatus::Banned,
        AdminRequest::SetSuspension { duration_seconds, .. } | AdminRequest::SetMute { duration_seconds, .. } => {
            valid_duration(*duration_seconds)
        },
        _ => true,
    }
}

fn valid_admin_accounts(accounts: &Vec<AdminAccountSummary>) -> (r: bool)
    ensures
        r == admin_accounts_ok(accounts@),
{
    if accounts.len() > MAX_ADMIN_ACCOUNTS_PER_PAGE as usize {
        return false;
    }
    let mut i: usize = 0;
    while i < accounts.len()
        invariant
            i <= accounts@.len(),
            forall|j: int| 0 <= j < i ==> admin_account_ok(#[trigger] accounts@[j]),
        decreases accounts.len() - i,
    {
        if !valid_admin_account(&accounts[i]) {
            return false;
        }
        i = i + 1;
    }
    true
}

fn lists_actor(characters: &Vec<CharacterSummary>, actor: ActorId) -> (r: bool)
    ensures
        r == exists|i: int| 0 <= i < characters@.len() && (#[trigger] characters@[i]).actor_id == actor,
{
    let mut i: usize = 0;
    while i < characters.len()
        invariant
            i <= characters@.len(),
            forall|j: int| 0 <= j < i ==> (#[trigger] characters@[j]).actor_id != actor,
        decreases characters.len() - i,
    {
        if characters[i].actor_id.0 == actor.0 {
            return true;
        }
        i = i + 1;
    }
    false
}

fn valid_account_characters(
    account_id: AccountId,
    characters: &Vec<CharacterSummary>,
    active: bool,
    controlled: Option<ActorId>,
) -> (r: bool)
    ensures
        r == account_characters_ok(account_id, characters@, active, controlled),
{
    if characters.len() > MAX_CHARACTERS_PER_ACCOUNT || account_id.counter() == 0 {
        return false;
    }
    let mut i: usize = 0;
    while i < characters.len()
        invariant
            i <= characters@.len(),
            forall|j: int| 0 <= j < i ==> owned_character_ok(#[trigger] characters@[j], account_id),
        decreases characters.len() - i,
    {
        let c = &characters[i];
        if !(c.actor_id.counter() > 0 && c.actor_id.world_namespace() == account_id.world_namespace()
            && valid_character_name(c.name.as_str())) {
            return false;
        }
        i = i + 1;
    }
    match controlled {
        Some(a) => active && lists_actor(characters, a),
        None => true,
    }
}

fn valid_reports(reports: &Vec<ReportSummary>) -> (r: bool)
    ensures
        r == reports_ok(reports@),
{
    if reports.len() > MAX_REPORTS_PER_PAGE as usize {
        return false;
    }
    let mut i: usize = 0;
    while i < reports.len()
        invariant
            i <= reports@.len(),
            forall|j: int| 0 <= j < i ==> report_summary_ok(#[trigger] reports@[j]),
        decreases reports.len() - i,
    {
        if !valid_report_summary(&reports[i]) {
            return false;
        }
        i = i + 1;
    }
    true
}

fn valid_history(entries: &Vec<ModerationHistoryEntry>) -> (r: bool)
    ensures
        r == history_ok(entries@),
{
    if entries.len() > MAX_MODERATION_HISTORY_PER_PAGE as usize {
        return false;
    }
    let mut i: usize = 0;
    while i < entries.len()
        invariant
            i <= entries@.len(),
            forall|j: int| 0 <= j < i ==> moderation_history_ok(#[trigger] entries@[j]),
        decreases entries.len() - i,
    {
        if !valid_moderation_history(&entries[i]) {
            return false;
        }
        i = i + 1;
    }
    true
}

/// Whether an administration reply keeps its bounds.
pub fn admin_response_is_valid(response: &AdminResponse) -> (r: bool)
    ensures
        r == admin_response_ok(*response),
{
    match response {
        AdminResponse::Accounts { accounts, .. } => valid_admin_accounts(accounts),
        AdminResponse::AccountUpdated(account) => valid_admin_account(account),
        AdminResponse::AccountCreated { account, pending_endpoint } => {
            valid_admin_account(account) && account.status == AccountStatus::InitialEnrollment
                && account.suspended_until_utc.is_none() && account.muted_until_utc.is_none()
                && pending_endpoint.state == EndpointBindingState::Pending && valid_binding(pending_endpoint)
        },
        AdminResponse::Endpoints { account_id, bindings } => account_id.counter() > 0 && valid_bindings(bindings),
        AdminResponse::EndpointPending { account_id, binding } => account_id.counter() > 0 && binding.state
            == EndpointBindingState::Pending && valid_binding(binding),
        AdminResponse::EndpointRevoked { account_id, .. } => account_id.counter() > 0,
        AdminResponse::ModerationApplied { account, kind, until_utc } => {
            let until = match kind {
                ModerationKind::Kick => until_utc.is_none(),
                ModerationKind::Suspension | ModerationKind::Mute => match until_utc {
                    Some(u) => *u > 0,
                    None => true,
                },
            };
            valid_admin_account(account) && until
        },
        AdminResponse::Characters { account_id, characters, gameplay_session_active, controlled_actor } => {
            valid_account_characters(*account_id, characters, *gameplay_session_active, *controlled_actor)
        },
        AdminResponse::Reports { reports, next_after } => valid_reports(reports) && match next_after {
            Some(id) => valid_db_sequence(id.0),
            None => true,
        },
        AdminResponse::ReportUpdated(report) => valid_report_summary(report),
        AdminResponse::ModerationHistory { entries, next_after, .. } => valid_history(entries) && match next_after {
            Some(h) => valid_db_sequence(*h),
            None => true,
        },
        AdminResponse::Ready { role, .. } => *role != AccountRole::Player,
        _ => true,
    }
}

impl ControlMessage {
    /// Whether the message keeps the protocol's bounds; a frame that breaks
    /// them is neither sent nor accepted. `max_choice_id_bytes` is the byte
    /// limit of an interaction choice identifier.
    pub fn within_bounds(&self, max_choice_id_bytes: usize) -> (r: bool)
        ensures
            r == control_message_ok(*self, max_choice_id_bytes as nat),
    {
        match self {
            ControlMessage::Command(command) => valid_client_command(command, max_choice_id_bytes),
            ControlMessage::EnrollmentAccepted(accepted) => valid_display_name(accepted.display_name.as_str()),
            ControlMessage::CharacterRequest(CharacterRequest::Create { name, base_stats }) => {
                valid_character_name(name.as_str()) && base_stats.is_valid()
            },
            ControlMessage::CharacterList(characters) => characters.len() <= MAX_CHARACTERS_PER_ACCOUNT
                && valid_character_names(characters),
            ControlMessage::ReportSubmit(report) => report.target_actor.counter() > 0 && valid_report_details(
                report.details.as_str(),
            ),
            ControlMessage::ReportResponse(ReportResponse::Accepted { report_id }) => valid_db_sequence(
                report_id.0,
            ),
            ControlMessage::AccountKeyResponse(AccountKeyResponse::Bindings(bindings)) => valid_bindings(bindings),
            ControlMessage::AccountKeyResponse(AccountKeyResponse::Pending(binding)) => {
                binding.state == EndpointBindingState::Pending && match binding.pending_expires_utc {
                    Some(e) => e > 0,
                    None => false,
                }
            },
            ControlMessage::AdminRequest(request) => admin_request_is_valid(request),
            ControlMessage::AdminResponse(response) => admin_response_is_valid(response),
            ControlMessage::ChatRejected(ChatRejection::Muted { until_utc }) => *until_utc > 0,
            ControlMessage::ClientHello(hello) => valid_content(&hello.content),
            ControlMessage::ServerHello(hello) => valid_content(&hello.content),
            ControlMessage::ChatSend { text } => valid_chat_text(text.as_str()),
            ControlMessage::ChatReceived(message) => valid_character_name(message.from_character.as_str())
                && valid_chat_text(message.text.as_str()),
            ControlMessage::SnapshotStreamReady { encoded_length, decoded_length, .. } => {
                (*encoded_length as usize) <= MAX_BULK_ENCODED && (*decoded_length as usize) <= MAX_BULK_DECODED
            },
            _ => true,
        }
    }
}

/// A held movement key, sent unreliably and superseded by later inputs.
#[derive(Clone, Copy, Debug, PartialEq, Eq)]
pub struct HeldMovementInputV1 {
    pub actor_id: ActorId,
    pub sequence: HeldInputSequence,
    pub client_tick: SimTick,
    pub direction: Option<HorizontalDirection>,
}

#[derive(Clone, Copy, Debug, PartialEq, Eq)]
pub enum ClientDatagramV1 {
    HeldMovement(HeldMovementInputV1),
}

#[derive(Clone, Copy, Debug, PartialEq, Eq, Structural, PartialOrd, Ord)]
pub enum HeldMovementUpdateSource {
    Client,
    LeaseExpired,
    Disconnected,
}

#[derive(Clone, Copy, Debug, PartialEq, Eq)]
pub struct HeldMovementUpdateV1 {
    pub actor_id: ActorId,
    pub sequence: HeldInputSequence,
    pub client_tick: SimTick,
    pub direction: Option<HorizontalDirection>,
    pub source: HeldMovementUpdateSource,
}

/// Whether an actor had a live gameplay session at a simulation boundary.
#[derive(Clone, Copy, Debug, PartialEq, Eq)]
pub struct ActorConnectionUpdateV1 {
    pub actor_id: ActorId,
    pub connected: bool,
}

/// A held movement is released (no direction) or one king-move step.
pub open spec fn datagram_ok(d: ClientDatagramV1) -> bool {
    match d {
        ClientDatagramV1::HeldMovement(input) => input.direction matches Some(dir) ==> direction_is_valid(dir),
    }
}

impl ClientDatagramV1 {
    /// Whether the datagram keeps the protocol's bounds.
    pub fn within_bounds(&self) -> (r: bool)
        ensures
            r == datagram_ok(*self),
    {
        match self {
            ClientDatagramV1::HeldMovement(input) => match input.direction {
                Some(dir) => dir.is_valid(),
                None => true,
            },
        }
    }
}

} // verus!
