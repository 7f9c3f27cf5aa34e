use protocol::accounts::{
    valid_character_name, valid_chat_text, valid_display_name, valid_report_details, AccountKeyResponse, AccountRole,
    AccountStatus, AdminAccountSummary, EndpointBindingState, EndpointBindingSummary, EndpointIdentity,
    ModerationHistoryEntry, ModerationKind, PlayerReport, ReportId, ReportReason, ReportResponse, ReportState,
    ReportSummary, MAX_ADMIN_ACCOUNTS_PER_PAGE, MAX_CHAT_BYTES, MAX_MODERATION_DURATION_SECONDS,
    MAX_MODERATION_HISTORY_PER_PAGE, MAX_REPORTS_PER_PAGE, MAX_REPORT_CHARACTERS,
};
use protocol::characters::{
    CharacterCreationStatsV1, MAX_CHARACTER_CREATION_STAT, MIN_CHARACTER_CREATION_STAT,
};
use protocol::control::{
    AdminRequest, AdminResponse, CharacterRequest, CharacterSummary, ClientDatagramV1, ClientHello, ContentIdentity,
    ControlMessage, HeldMovementInputV1, MAX_BULK_DECODED, PROTOCOL_VERSION,
};
use protocol::geometry::{HeldInputSequence, HorizontalDirection};
use protocol::ids::{AccountId, ActorId, ItemId};
use protocol::time::SimTick;

/// Interaction choice identifiers in these messages stay well within any limit.
const CHOICE_ID_BYTES: usize = 64;

fn creation_request(base_stats: CharacterCreationStatsV1) -> ControlMessage {
    ControlMessage::CharacterRequest(CharacterRequest::Create {
        name: String::from("Survivor"),
        base_stats,
    })
}

#[test]
fn character_creation_stats_use_pinned_freeform_bounds() {
    let defaults = CharacterCreationStatsV1::default();
    assert_eq!(
        defaults,
        CharacterCreationStatsV1 {
            strength: 8,
            dexterity: 8,
            intelligence: 8,
            perception: 8,
        }
    );
    assert!(creation_request(defaults).within_bounds(CHOICE_ID_BYTES));
    for invalid in [
        CharacterCreationStatsV1 {
            strength: MIN_CHARACTER_CREATION_STAT - 1,
            ..defaults
        },
        CharacterCreationStatsV1 {
            perception: MAX_CHARACTER_CREATION_STAT + 1,
            ..defaults
        },
    ] {
        assert!(!creation_request(invalid).within_bounds(CHOICE_ID_BYTES));
    }
}

#[test]
fn account_key_responses_enforce_binding_bounds_and_pending_shape() {
    let pending = EndpointBindingSummary {
        endpoint: EndpointIdentity([1; 32]),
        state: EndpointBindingState::Pending,
        pending_expires_utc: Some(1),
    };
    assert!(ControlMessage::AccountKeyResponse(AccountKeyResponse::Pending(pending)).within_bounds(CHOICE_ID_BYTES));
    let invalid_expiry = EndpointBindingSummary {
        pending_expires_utc: Some(0),
        ..pending
    };
    assert!(!ControlMessage::AccountKeyResponse(AccountKeyResponse::Pending(invalid_expiry)).within_bounds(CHOICE_ID_BYTES));
    let invalid_active = EndpointBindingSummary {
        state: EndpointBindingState::Active,
        ..pending
    };
    assert!(!ControlMessage::AccountKeyResponse(AccountKeyResponse::Bindings(vec![invalid_active])).within_bounds(CHOICE_ID_BYTES));
    assert!(!ControlMessage::AccountKeyResponse(AccountKeyResponse::Bindings(vec![pending; 257])).within_bounds(CHOICE_ID_BYTES));
}

fn report_summary() -> ReportSummary {
    ReportSummary {
        report_id: ReportId(1),
        created_utc: 1,
        reporter_account: AccountId::new(1, 1),
        reporter_actor: ActorId::new(1, 1),
        reporter_character: "🦀".repeat(64),
        target_account: AccountId::new(1, 2),
        target_actor: ActorId::new(1, 2),
        target_character: "🦀".repeat(64),
        reason: ReportReason::Other,
        details: "é".repeat(MAX_REPORT_CHARACTERS),
        state: ReportState::Actioned,
        resolved_utc: Some(i64::MAX),
        resolved_by_account: Some(AccountId::new(u64::MAX, u64::MAX)),
        resolution_audit_sequence: Some(i64::MAX as u64),
    }
}

#[test]
fn admin_messages_enforce_pages_and_public_status_transitions() {
    assert!(ControlMessage::AdminRequest(AdminRequest::ListAccounts {
        after: None,
        limit: MAX_ADMIN_ACCOUNTS_PER_PAGE,
    })
    .within_bounds(CHOICE_ID_BYTES));
    assert!(!ControlMessage::AdminRequest(AdminRequest::ListAccounts { after: None, limit: 0 }).within_bounds(CHOICE_ID_BYTES));
    assert!(!ControlMessage::AdminRequest(AdminRequest::SetStatus {
        account_id: AccountId::new(1, 1),
        status: AccountStatus::RecoveryLocked,
    })
    .within_bounds(CHOICE_ID_BYTES));
    assert!(!ControlMessage::AdminRequest(AdminRequest::CreateAccount {
        display_name: String::from("invalid\nname"),
        role: AccountRole::Player,
        endpoint: EndpointIdentity([1; 32]),
    })
    .within_bounds(CHOICE_ID_BYTES));
    let account = AdminAccountSummary {
        account_id: AccountId::new(1, 2),
        display_name: "🦀".repeat(64),
        role: AccountRole::Player,
        status: AccountStatus::Enabled,
        suspended_until_utc: None,
        muted_until_utc: Some(1),
    };
    assert!(ControlMessage::AdminResponse(AdminResponse::Accounts {
        accounts: vec![account; usize::from(MAX_ADMIN_ACCOUNTS_PER_PAGE)],
        next_after: Some(AccountId::new(1, 2)),
    })
    .within_bounds(CHOICE_ID_BYTES));
    let pending_binding = EndpointBindingSummary {
        endpoint: EndpointIdentity([2; 32]),
        state: EndpointBindingState::Pending,
        pending_expires_utc: Some(i64::MAX),
    };
    assert!(ControlMessage::AdminResponse(AdminResponse::Endpoints {
        account_id: AccountId::new(1, 2),
        bindings: vec![pending_binding; 256],
    })
    .within_bounds(CHOICE_ID_BYTES));
    let characters = || {
        vec![CharacterSummary {
            actor_id: ActorId::new(1, 3),
            name: String::from("Survivor"),
        }]
    };
    assert!(!ControlMessage::AdminResponse(AdminResponse::Characters {
        account_id: AccountId::new(1, 2),
        characters: characters(),
        gameplay_session_active: false,
        controlled_actor: Some(ActorId::new(1, 3)),
    })
    .within_bounds(CHOICE_ID_BYTES));
    assert!(ControlMessage::AdminResponse(AdminResponse::Characters {
        account_id: AccountId::new(1, 2),
        characters: characters(),
        gameplay_session_active: true,
        controlled_actor: Some(ActorId::new(1, 3)),
    })
    .within_bounds(CHOICE_ID_BYTES));
    assert!(!ControlMessage::AdminRequest(AdminRequest::SetSuspension {
        account_id: AccountId::new(1, 2),
        duration_seconds: Some(MAX_MODERATION_DURATION_SECONDS + 1),
    })
    .within_bounds(CHOICE_ID_BYTES));
    assert!(!ControlMessage::ReportSubmit(PlayerReport {
        target_actor: ActorId::new(1, 3),
        reason: ReportReason::Chat,
        details: String::new(),
    })
    .within_bounds(CHOICE_ID_BYTES));
    assert!(!ControlMessage::ReportResponse(ReportResponse::Accepted { report_id: ReportId(0) }).within_bounds(CHOICE_ID_BYTES));
    assert!(!ControlMessage::AdminRequest(AdminRequest::ListReports {
        state: Some(ReportState::Open),
        after: Some(ReportId(i64::MAX as u64 + 1)),
        limit: 1,
    })
    .within_bounds(CHOICE_ID_BYTES));
    assert!(!ControlMessage::AdminRequest(AdminRequest::SetReportState {
        report_id: ReportId(1),
        state: ReportState::Open,
    })
    .within_bounds(CHOICE_ID_BYTES));
    assert!(ControlMessage::AdminResponse(AdminResponse::Reports {
        reports: vec![report_summary(); usize::from(MAX_REPORTS_PER_PAGE)],
        next_after: Some(ReportId(1)),
    })
    .within_bounds(CHOICE_ID_BYTES));
    let history = ModerationHistoryEntry {
        history_id: 1,
        security_audit_sequence: 1,
        occurred_utc: 1,
        operator_account: AccountId::new(1, 1),
        target_account: AccountId::new(1, 2),
        kind: ModerationKind::Suspension,
        until_utc: Some(2),
    };
    assert!(ControlMessage::AdminResponse(AdminResponse::ModerationHistory {
        account_id: AccountId::new(1, 2),
        entries: vec![history; usize::from(MAX_MODERATION_HISTORY_PER_PAGE)],
        next_after: Some(1),
    })
    .within_bounds(CHOICE_ID_BYTES));
}

#[test]
fn oversized_chat_is_rejected_before_encoding() {
    let message = ControlMessage::ChatSend {
        text: "x".repeat(MAX_CHAT_BYTES + 1),
    };
    assert!(!message.within_bounds(CHOICE_ID_BYTES));
}

#[test]
fn chat_text_must_hold_something_besides_white_space() {
    assert!(valid_chat_text("hello"));
    assert!(!valid_chat_text(""));
    assert!(!valid_chat_text(" \t\u{3000} "));
    assert!(valid_chat_text(" x "));
    assert!(!valid_chat_text("bell\u{7}"));
    assert!(valid_chat_text(&"x".repeat(MAX_CHAT_BYTES)));
}

#[test]
fn names_count_characters_and_bytes_separately() {
    assert!(valid_display_name(&"🦀".repeat(64)));
    assert!(!valid_display_name(&"🦀".repeat(65)));
    assert!(valid_character_name(&"x".repeat(64)));
    assert!(!valid_character_name(&"x".repeat(65)));
    assert!(!valid_character_name(""));
    assert!(valid_report_details(&"é".repeat(MAX_REPORT_CHARACTERS)));
    assert!(!valid_report_details(&"é".repeat(MAX_REPORT_CHARACTERS + 1)));
}

fn content(commit: &str, mods: Vec<String>) -> ContentIdentity {
    ContentIdentity {
        baseline_commit: commit.to_owned(),
        manifest_hash: [0; 32],
        enabled_mods: mods,
    }
}

#[test]
fn hello_content_identity_is_bounded() {
    let commit = "4dfd36038b16650dc1b5cb9d79a3e42363174b05";
    let hello = |content| ControlMessage::ClientHello(ClientHello { protocol_version: PROTOCOL_VERSION, content });
    assert!(hello(content(commit, vec![String::from("dda")])).within_bounds(CHOICE_ID_BYTES));
    assert!(!hello(content("4dfd", Vec::new())).within_bounds(CHOICE_ID_BYTES));
    assert!(!hello(content(commit, vec![String::from("m"); 257])).within_bounds(CHOICE_ID_BYTES));
    assert!(!hello(content(commit, vec!["m".repeat(513)])).within_bounds(CHOICE_ID_BYTES));
    assert!(hello(content(commit, vec!["m".repeat(512)])).within_bounds(CHOICE_ID_BYTES));
}

#[test]
fn snapshot_stream_lengths_and_heartbeats_are_bounded() {
    let ready = |decoded_length| ControlMessage::SnapshotStreamReady {
        actor_id: ActorId::new(1, 1),
        sequence: 1,
        tick: SimTick(1),
        encoded_length: 1,
        decoded_length,
    };
    assert!(ready(MAX_BULK_DECODED as u32).within_bounds(CHOICE_ID_BYTES));
    assert!(!ready(MAX_BULK_DECODED as u32 + 1).within_bounds(CHOICE_ID_BYTES));
    assert!(ControlMessage::Heartbeat { tick: SimTick(50) }.within_bounds(CHOICE_ID_BYTES));
}

#[test]
fn inspecting_a_character_keeps_the_inventory_cursor_in_its_world() {
    let inspect = |item: Option<ItemId>, limit| {
        ControlMessage::AdminRequest(AdminRequest::InspectCharacter {
            actor_id: ActorId::new(1, 3),
            inventory_after: item,
            inventory_limit: limit,
        })
    };
    assert!(inspect(Some(ItemId::new(1, 4)), 8).within_bounds(CHOICE_ID_BYTES));
    assert!(!inspect(Some(ItemId::new(2, 4)), 8).within_bounds(CHOICE_ID_BYTES));
    assert!(!inspect(Some(ItemId::new(1, 0)), 8).within_bounds(CHOICE_ID_BYTES));
    assert!(!inspect(None, 9).within_bounds(CHOICE_ID_BYTES));
    assert!(!inspect(None, 0).within_bounds(CHOICE_ID_BYTES));
}

#[test]
fn moderation_applied_reports_an_end_only_for_timed_actions() {
    let account = || AdminAccountSummary {
        account_id: AccountId::new(1, 2),
        display_name: String::from("Moderated"),
        role: AccountRole::Player,
        status: AccountStatus::Enabled,
        suspended_until_utc: None,
        muted_until_utc: None,
    };
    let applied = |kind, until_utc| {
        ControlMessage::AdminResponse(AdminResponse::ModerationApplied { account: account(), kind, until_utc })
    };
    assert!(applied(ModerationKind::Kick, None).within_bounds(CHOICE_ID_BYTES));
    assert!(!applied(ModerationKind::Kick, Some(5)).within_bounds(CHOICE_ID_BYTES));
    assert!(applied(ModerationKind::Mute, Some(5)).within_bounds(CHOICE_ID_BYTES));
    assert!(!applied(ModerationKind::Suspension, Some(0)).within_bounds(CHOICE_ID_BYTES));
    let mut report = report_summary();
    report.state = ReportState::Open;
    assert!(!ControlMessage::AdminResponse(AdminResponse::ReportUpdated(report)).within_bounds(CHOICE_ID_BYTES));
}

#[test]
fn held_movement_datagram_is_versioned_bounded_and_strict() {
    let input = HeldMovementInputV1 {
        actor_id: ActorId::new(1, 2),
        sequence: HeldInputSequence(7),
        client_tick: SimTick(11),
        direction: Some(HorizontalDirection { dx: -1, dy: 1 }),
    };
    assert!(ClientDatagramV1::HeldMovement(input).within_bounds());
    let invalid = ClientDatagramV1::HeldMovement(HeldMovementInputV1 {
        direction: Some(HorizontalDirection { dx: 2, dy: 0 }),
        ..input
    });
    assert!(!invalid.within_bounds());
    let released = ClientDatagramV1::HeldMovement(HeldMovementInputV1 { direction: None, ..input });
    assert!(released.within_bounds());
    let standing = ClientDatagramV1::HeldMovement(HeldMovementInputV1 {
        direction: Some(HorizontalDirection { dx: 0, dy: 0 }),
        ..input
    });
    assert!(!standing.within_bounds());
}
