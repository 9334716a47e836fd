//! A workspace's replies on their way out: one flat shape for every kind, made
//! only when it is drained.

use vstd::prelude::*;

use crate::connect::{credential_error, credential_failure, summarised, ConnectSummary,
    PasswordSource, PromptReason, ReldexConnectSummary, ReldexPasswordSourceKind,
    ReldexPromptReasonKind, ReldexSecret};
use crate::counters::{Kind, LiveCounters};
use crate::error::{ErrorModel, ReldexError};
use crate::history::{history_id_to_ffi, shown_history_id, shown_record, shown_records,
    ReldexHistoryList, StoredHistoryRecord};
use crate::profile::{millis_to_ffi, shown, shown_millis, shown_profiles, Profile,
    ReldexProfileList, StoredProfile};
use crate::service::{QueuedWorkspaceReply, ReldexWorkspaceReplyKind, Stamp, WorkspacePayload};
use crate::settings::{Level, ReldexSettingId, ReldexSettingLevel, ReldexSettingValue, SettingId};
use crate::worksheet::{no_id, shown_worksheet, shown_worksheets, zero_id, Layout, ReldexLayout,
    ReldexWorksheetList, ShownWorksheet};

verus! {

/// One answered request. The caller switches on `kind` and reads the fields that
/// belong to it; the others are zero or absent. What it is handed it releases.
pub struct ReldexWorkspaceReply {
    /// How many bytes of it are valid.
    pub struct_size: u32,
    /// A [`ReldexWorkspaceReplyKind`].
    pub kind: i32,
    /// The caller's own id of the request.
    pub request: u64,
    /// Why the request failed.
    pub error: Option<ReldexError>,
    /// The id of what was saved.
    pub id: [u8; 16],
    /// Whether there was one.
    pub found: bool,
    /// When what was saved was made, in milliseconds since 1970.
    pub created_at: u64,
    /// When what was saved was last changed, in milliseconds since 1970.
    pub updated_at: u64,
    /// How many records were cleared.
    pub count: u64,
    /// A [`ReldexSettingId`].
    pub setting_id: i32,
    pub setting_value: ReldexSettingValue,
    /// A [`ReldexSettingLevel`].
    pub setting_source: i32,
    pub profile_list: Option<ReldexProfileList>,
    pub connect: Option<ReldexConnectSummary>,
    pub secret: Option<ReldexSecret>,
    /// A [`ReldexPasswordSourceKind`].
    pub password_source_kind: i32,
    /// A [`ReldexPromptReasonKind`].
    pub prompt_reason: i32,
    /// The id of what was recorded.
    pub history_id: u64,
    pub history_list: Option<ReldexHistoryList>,
    pub worksheet_list: Option<ReldexWorksheetList>,
    pub layout: ReldexLayout,
}

/// What a reply says.
#[verifier::ext_equal]
pub struct ReplyModel {
    pub kind: i32,
    pub request: u64,
    pub error: Option<ErrorModel>,
    pub id: Seq<u8>,
    pub found: bool,
    pub created_at: u64,
    pub updated_at: u64,
    pub count: u64,
    pub setting_id: i32,
    pub setting_value: ReldexSettingValue,
    pub setting_source: i32,
    pub profiles: Option<Seq<StoredProfile<Seq<char>>>>,
    pub connect: Option<ConnectSummary<Seq<char>>>,
    pub secret: Option<Seq<u8>>,
    pub password_source: ReldexPasswordSourceKind,
    pub prompt_reason: ReldexPromptReasonKind,
    pub history_id: u64,
    pub records: Option<Seq<StoredHistoryRecord<Seq<char>>>>,
    pub worksheets: Option<Seq<ShownWorksheet>>,
    pub layout: Layout,
}

impl ReplyModel {
    /// A reply that says nothing but what it answers.
    pub open spec fn blank(kind: ReldexWorkspaceReplyKind, request: u64) -> Self {
        ReplyModel {
            kind: kind as i32,
            request,
            error: None,
            id: no_id(),
            found: false,
            created_at: 0,
            updated_at: 0,
            count: 0,
            setting_id: 0,
            setting_value: ReldexSettingValue::nothing(),
            setting_source: 0,
            profiles: None,
            connect: None,
            secret: None,
            password_source: ReldexPasswordSourceKind::Unknown,
            prompt_reason: ReldexPromptReasonKind::Unknown,
            history_id: 0,
            records: None,
            worksheets: None,
            layout: ReldexLayout::nothing_saved(),
        }
    }

    /// With the id and the times of what was saved.
    pub open spec fn stamped(self, stamp: Stamp) -> Self {
        ReplyModel {
            id: stamp.id@,
            created_at: shown_millis(stamp.created_at),
            updated_at: shown_millis(stamp.updated_at),
            ..self
        }
    }

    /// With where a password comes from.
    pub open spec fn with_password(self, source: PasswordSource) -> Self {
        match source {
            PasswordSource::FromStore(secret) => ReplyModel {
                password_source: ReldexPasswordSourceKind::FromStore,
                secret: Some(secret@),
                ..self
            },
            PasswordSource::PromptRequired(reason) => ReplyModel {
                password_source: ReldexPasswordSourceKind::PromptRequired,
                prompt_reason: ReldexPromptReasonKind::of(reason),
                error: match reason {
                    PromptReason::StoreFailed(error) => Some(
                        credential_failure("resolve_password"@, error),
                    ),
                    _ => None,
                },
                ..self
            },
            PasswordSource::NotNeeded => ReplyModel {
                password_source: ReldexPasswordSourceKind::NotNeeded,
                ..self
            },
        }
    }
}

/// The profiles of an answer that has at most one.
pub open spec fn at_most_one(profile: Option<Profile<String>>) -> Seq<Profile<String>> {
    match profile {
        Some(profile) => seq![profile],
        None => Seq::empty(),
    }
}

/// What a drained reply says.
pub open spec fn crossed(reply: QueuedWorkspaceReply) -> ReplyModel {
    let blank = ReplyModel::blank(reply.kind, reply.request);
    match reply.payload {
        Err(error) => ReplyModel { error: Some(error@), ..blank },
        Ok(WorkspacePayload::Nothing) => blank,
        Ok(WorkspacePayload::SettingResolved { setting, value, source }) => ReplyModel {
            setting_id: ReldexSettingId::of(setting) as i32,
            setting_value: ReldexSettingValue::of(value),
            setting_source: ReldexSettingLevel::of(source) as i32,
            ..blank
        },
        Ok(WorkspacePayload::Existed(existed)) => ReplyModel { found: existed, ..blank },
        Ok(WorkspacePayload::ProfileSaved(stamp)) => blank.stamped(stamp),
        Ok(WorkspacePayload::ProfileFetched(profile)) => ReplyModel {
            found: profile is Some,
            profiles: Some(shown_profiles(at_most_one(profile))),
            ..blank
        },
        Ok(WorkspacePayload::ProfilesListed(profiles)) => ReplyModel {
            profiles: Some(shown_profiles(profiles@)),
            ..blank
        },
        Ok(WorkspacePayload::ConnectParamsBuilt(params)) => ReplyModel {
            connect: Some(summarised(params@)),
            ..blank
        },
        Ok(WorkspacePayload::CredentialGot(secret)) => ReplyModel {
            found: secret is Some,
            secret: match secret {
                Some(secret) => Some(secret@),
                None => None,
            },
            ..blank
        },
        Ok(WorkspacePayload::PasswordResolved(source)) => blank.with_password(source),
        Ok(WorkspacePayload::HistoryRecorded(id)) => ReplyModel {
            history_id: shown_history_id(id),
            ..blank
        },
        Ok(WorkspacePayload::HistoryListed(records)) => ReplyModel {
            records: Some(shown_records(records@)),
            ..blank
        },
        Ok(WorkspacePayload::HistoryCleared(count)) => ReplyModel {
            count: count as u64,
            ..blank
        },
        Ok(WorkspacePayload::WorksheetSaved(stamp)) => blank.stamped(stamp),
        Ok(WorkspacePayload::WorksheetsLoaded(worksheets)) => ReplyModel {
            worksheets: Some(shown_worksheets(worksheets@)),
            ..blank
        },
        Ok(WorkspacePayload::LayoutLoaded(layout)) => ReplyModel {
            found: layout is Some,
            layout: match layout {
                Some(layout) => layout,
                None => ReldexLayout::nothing_saved(),
            },
            ..blank
        },
    }
}

/// The objects that are alive once a reply is drained: those it hands out are
/// counted.
pub open spec fn live_with(live: LiveCounters, model: ReplyModel) -> LiveCounters {
    let with_error = if model.error is Some {
        live.plus(Kind::Error)
    } else {
        live
    };
    if model.profiles is Some || model.connect is Some || model.secret is Some || model.records is Some
        || model.worksheets is Some {
        with_error.plus(Kind::WorkspaceObject)
    } else {
        with_error
    }
}

impl ReldexWorkspaceReply {
    /// Whether this says what `model` does.
    pub open spec fn says(self, model: ReplyModel) -> bool {
        &&& self.kind == model.kind
        &&& self.request == model.request
        &&& match self.error {
            Some(error) => model.error == Some(error@),
            None => model.error is None,
        }
        &&& self.id@ == model.id
        &&& self.found == model.found
        &&& self.created_at == model.created_at
        &&& self.updated_at == model.updated_at
        &&& self.count == model.count
        &&& self.setting_id == model.setting_id
        &&& self.setting_value == model.setting_value
        &&& self.setting_source == model.setting_source
        &&& match self.profile_list {
            Some(list) => model.profiles == Some(list@),
            None => model.profiles is None,
        }
        &&& match self.connect {
            Some(summary) => model.connect == Some(summary@),
            None => model.connect is None,
        }
        &&& match self.secret {
            Some(secret) => model.secret == Some(secret@),
            None => model.secret is None,
        }
        &&& self.password_source_kind == model.password_source as i32
        &&& self.prompt_reason == model.prompt_reason as i32
        &&& self.history_id == model.history_id
        &&& match self.history_list {
            Some(list) => model.records == Some(list@),
            None => model.records is None,
        }
        &&& match self.worksheet_list {
            Some(list) => model.worksheets == Some(list@),
            None => model.worksheets is None,
        }
        &&& self.layout.flattens(model.layout)
    }
}

/// Puts where a password comes from into a reply that says nothing yet.
fn put_password(live: &mut LiveCounters, out: ReldexWorkspaceReply, source: PasswordSource) -> (
reply: ReldexWorkspaceReply)
    requires
        out.error is None,
    ensures
        reply.struct_size == out.struct_size,
        forall|model: ReplyModel| #[trigger]
            out.says(model) && model.password_source == ReldexPasswordSourceKind::Unknown
                && model.prompt_reason == ReldexPromptReasonKind::Unknown ==> reply.says(
                model.with_password(source),
            ),
        *final(live) == match source {
            PasswordSource::FromStore(secret) => old(live).plus(Kind::WorkspaceObject),
            PasswordSource::PromptRequired(PromptReason::StoreFailed(error)) => old(live).plus(
                Kind::Error,
            ),
            _ => *old(live),
        },
{
    let mut out = out;
    match source {
        PasswordSource::FromStore(secret) => {
            out.password_source_kind = ReldexPasswordSourceKind::FromStore as i32;
            out.secret = Some(ReldexSecret::new(live, secret));
        },
        PasswordSource::PromptRequired(reason) => {
            out.password_source_kind = ReldexPasswordSourceKind::PromptRequired as i32;
            let kind = match reason {
                PromptReason::PromptEachTime => ReldexPromptReasonKind::PromptEachTime,
                PromptReason::StoreUnavailable => ReldexPromptReasonKind::StoreUnavailable,
                PromptReason::NotStored => ReldexPromptReasonKind::NotStored,
                PromptReason::StoreFailed(error) => {
                    let error = credential_error("resolve_password", &error);
                    out.error = Some(ReldexError::from_db_error(live, &error));
                    ReldexPromptReasonKind::StoreFailed
                },
                PromptReason::Unrecognized => ReldexPromptReasonKind::Unknown,
            };
            out.prompt_reason = kind as i32;
        },
        PasswordSource::NotNeeded => {
            out.password_source_kind = ReldexPasswordSourceKind::NotNeeded as i32;
        },
    }
    out
}

impl QueuedWorkspaceReply {
    /// Makes what the caller is handed, counting every object in it. `valid`
    /// bytes of it are valid.
    pub fn into_c(self, live: &mut LiveCounters, valid: u32) -> (reply: ReldexWorkspaceReply)
        ensures
            reply.struct_size == valid,
            reply.says(crossed(self)),
            *final(live) == live_with(*old(live), crossed(self)),
    {
        let mut out = ReldexWorkspaceReply {
            struct_size: valid,
            kind: self.kind as i32,
            request: self.request,
            error: None,
            id: zero_id(),
            found: false,
            created_at: 0,
            updated_at: 0,
            count: 0,
            setting_id: 0,
            setting_value: ReldexSettingValue::default(),
            setting_source: 0,
            profile_list: None,
            connect: None,
            secret: None,
            password_source_kind: 0,
            prompt_reason: 0,
            history_id: 0,
            history_list: None,
            worksheet_list: None,
            layout: ReldexLayout::default(),
        };
        assert(out.says(ReplyModel::blank(self.kind, self.request)));
        let payload = match self.payload {
            Ok(payload) => payload,
            Err(error) => {
                out.error = Some(ReldexError::from_db_error(live, &error));
                return out;
            },
        };
        match payload {
            WorkspacePayload::Nothing => {},
            WorkspacePayload::SettingResolved { setting, value, source } => {
                out.setting_id = ReldexSettingId::from_setting_id(setting) as i32;
                out.setting_value = ReldexSettingValue::from_value(value);
                out.setting_source = ReldexSettingLevel::from_level(source) as i32;
            },
            WorkspacePayload::Existed(existed) => {
                out.found = existed;
            },
            WorkspacePayload::ProfileSaved(stamp) => {
                out.id = stamp.id;
                out.created_at = millis_to_ffi(stamp.created_at);
                out.updated_at = millis_to_ffi(stamp.updated_at);
            },
            WorkspacePayload::ProfileFetched(profile) => {
                out.found = profile.is_some();
                let mut profiles: Vec<Profile<String>> = Vec::new();
                if let Some(profile) = profile {
                    profiles.push(profile);
                }
                assert(profiles@ =~= at_most_one(profile));
                out.profile_list = Some(ReldexProfileList::new(live, &profiles));
            },
            WorkspacePayload::ProfilesListed(profiles) => {
                out.profile_list = Some(ReldexProfileList::new(live, &profiles));
            },
            WorkspacePayload::ConnectParamsBuilt(params) => {
                out.connect = Some(ReldexConnectSummary::new(live, &params));
            },
            WorkspacePayload::CredentialGot(secret) => {
                out.found = secret.is_some();
                if let Some(secret) = secret {
                    out.secret = Some(ReldexSecret::new(live, secret));
                }
            },
            WorkspacePayload::PasswordResolved(source) => {
                out = put_password(live, out, source);
            },
            WorkspacePayload::HistoryRecorded(id) => {
                out.history_id = history_id_to_ffi(id);
            },
            WorkspacePayload::HistoryListed(records) => {
                out.history_list = Some(ReldexHistoryList::new(live, &records));
            },
            WorkspacePayload::HistoryCleared(count) => {
                out.count = count as u64;
            },
            WorkspacePayload::WorksheetSaved(stamp) => {
                out.id = stamp.id;
                out.created_at = millis_to_ffi(stamp.created_at);
                out.updated_at = millis_to_ffi(stamp.updated_at);
            },
            WorkspacePayload::WorksheetsLoaded(worksheets) => {
                out.worksheet_list = Some(ReldexWorksheetList::new(live, &worksheets));
            },
            WorkspacePayload::LayoutLoaded(layout) => {
                out.found = layout.is_some();
                if let Some(layout) = layout {
                    out.layout = ReldexLayout::from_layout(&layout);
                }
            },
        }
        out
    }
}

/// A reply that fails carries its error and nothing else.
pub proof fn a_failed_reply_hands_out_nothing_else(reply: QueuedWorkspaceReply)
    requires
        reply.payload is Err,
    ensures
        ({
            let model = crossed(reply);
            &&& model.error == Some(reply.payload->Err_0@)
            &&& ReplyModel { error: None, ..model } == ReplyModel::blank(reply.kind, reply.request)
        }),
{
}

/// What a caller asked with comes back: every reply has the request's id and
/// the request's kind.
pub proof fn a_reply_echoes_its_request(reply: QueuedWorkspaceReply)
    ensures
        crossed(reply).request == reply.request,
        crossed(reply).kind == reply.kind as i32,
{
}

/// A drained reply carries what its command came to, each thing in its own field:
/// a resolved setting by its number, value and source; whether there was
/// something; the id and times of what was saved; the count of what was cleared;
/// the id of what was recorded. What belongs to another kind is absent.
pub proof fn a_reply_carries_what_its_command_came_to(
    queued: QueuedWorkspaceReply,
    live: &mut LiveCounters,
    valid: u32,
    reply: ReldexWorkspaceReply,
)
    requires
        call_ensures(QueuedWorkspaceReply::into_c, (queued, live, valid), reply),
    ensures
        reply.struct_size == valid,
        reply.request == queued.request,
        reply.kind == queued.kind as i32,
        queued.payload matches Err(error) ==> {
            &&& reply.error matches Some(told) && told@ == error@
            &&& reply.profile_list is None
            &&& reply.connect is None
            &&& reply.secret is None
            &&& reply.history_list is None
            &&& reply.worksheet_list is None
            &&& !reply.found
        },
        queued.payload matches Ok(payload) ==> {
            &&& reply.error is Some <==> (payload matches WorkspacePayload::PasswordResolved(
                PasswordSource::PromptRequired(PromptReason::StoreFailed(error)),
            ))
            &&& payload matches WorkspacePayload::SettingResolved { setting, value, source } ==> {
                &&& setting == SettingId::FetchRows <==> reply.setting_id == 4
                &&& setting == SettingId::ConnectTimeout <==> reply.setting_id == 1
                &&& setting == SettingId::StatementTimeLimit <==> reply.setting_id == 3
                &&& source == Level::BuiltIn <==> reply.setting_source == 1
                &&& source == Level::Application <==> reply.setting_source == 2
                &&& source == Level::Profile <==> reply.setting_source == 3
                &&& source == Level::Worksheet <==> reply.setting_source == 4
                &&& value.wf() && value !is Unrecognized ==> reply.setting_value.meant() == Some(
                    value,
                )
            }
            &&& payload matches WorkspacePayload::Existed(existed) ==> reply.found == existed
            &&& payload matches WorkspacePayload::ProfileSaved(stamp) ==> {
                &&& reply.id@ == stamp.id@
                &&& stamp.created_at >= 0 ==> reply.created_at == stamp.created_at
                &&& stamp.updated_at >= 0 ==> reply.updated_at == stamp.updated_at
            }
            &&& payload matches WorkspacePayload::WorksheetSaved(stamp) ==> {
                &&& reply.id@ == stamp.id@
                &&& stamp.created_at >= 0 ==> reply.created_at == stamp.created_at
                &&& stamp.updated_at >= 0 ==> reply.updated_at == stamp.updated_at
            }
            &&& payload matches WorkspacePayload::ProfileFetched(profile) ==> {
                &&& reply.found <==> profile is Some
                &&& reply.profile_list matches Some(list) && list@.len() == if profile is Some {
                    1int
                } else {
                    0
                }
                &&& profile matches Some(profile) ==> reply.profile_list->0@[0] == shown(profile@)
            }
            &&& payload matches WorkspacePayload::ProfilesListed(profiles) ==> {
                &&& reply.profile_list matches Some(list) && list@.len() == profiles@.len()
                &&& forall|i: int|
                    0 <= i < profiles@.len() ==> #[trigger] reply.profile_list->0@[i] == shown(
                        profiles@[i]@,
                    )
            }
            &&& payload matches WorkspacePayload::ConnectParamsBuilt(params) ==> (
            reply.connect matches Some(summary) && summary@ == summarised(params@))
            &&& payload matches WorkspacePayload::CredentialGot(secret) ==> {
                &&& reply.found <==> secret is Some
                &&& reply.secret is Some <==> secret is Some
                &&& secret matches Some(secret) ==> reply.secret->0@ == secret@
            }
            &&& payload matches WorkspacePayload::HistoryRecorded(id) ==> (id >= 0
                ==> reply.history_id == id)
            &&& payload matches WorkspacePayload::HistoryListed(records) ==> {
                &&& reply.history_list matches Some(list) && list@.len() == records@.len()
                &&& forall|i: int|
                    0 <= i < records@.len() ==> #[trigger] reply.history_list->0@[i]
                        == shown_record(records@[i])
            }
            &&& payload matches WorkspacePayload::HistoryCleared(count) ==> reply.count == count
            &&& payload matches WorkspacePayload::WorksheetsLoaded(worksheets) ==> {
                &&& reply.worksheet_list matches Some(list) && list@.len() == worksheets@.len()
                &&& forall|i: int|
                    0 <= i < worksheets@.len() ==> #[trigger] reply.worksheet_list->0@[i]
                        == shown_worksheet(worksheets@[i])
            }
            &&& payload matches WorkspacePayload::LayoutLoaded(layout) ==> {
                &&& reply.found <==> layout is Some
                &&& layout matches Some(layout) ==> reply.layout.flattens(layout)
            }
            &&& payload !is SettingResolved ==> reply.setting_id == 0 && reply.setting_source == 0
            &&& payload !is ProfileFetched && payload !is ProfilesListed
                ==> reply.profile_list is None
            &&& payload !is ConnectParamsBuilt ==> reply.connect is None
            &&& payload !is CredentialGot && payload !is PasswordResolved ==> reply.secret is None
            &&& payload !is HistoryListed ==> reply.history_list is None
            &&& payload !is WorksheetsLoaded ==> reply.worksheet_list is None
            &&& payload !is HistoryRecorded ==> reply.history_id == 0
            &&& payload !is HistoryCleared ==> reply.count == 0
            &&& payload !is PasswordResolved ==> reply.password_source_kind == 0
                && reply.prompt_reason == 0
        },
{
    if let Ok(WorkspacePayload::SettingResolved { setting, value, source }) = queued.payload {
        if value.wf() && value !is Unrecognized {
            crate::settings::setting_value_round_trip(value);
        }
    }
}

/// A resolved password says where it comes from: out of the store, in which case
/// it is handed out as it was stored; from the user, and why; or from nowhere,
/// where none is needed. Only a store that failed is told as a failure, in its
/// own words.
pub proof fn a_password_says_where_it_comes_from(
    queued: QueuedWorkspaceReply,
    source: PasswordSource,
    live: &mut LiveCounters,
    valid: u32,
    reply: ReldexWorkspaceReply,
)
    requires
        queued.payload matches Ok(WorkspacePayload::PasswordResolved(resolved)) && resolved
            == source,
        call_ensures(QueuedWorkspaceReply::into_c, (queued, live, valid), reply),
    ensures
        reply.password_source_kind == 1 <==> source is FromStore,
        reply.password_source_kind == 2 <==> source is PromptRequired,
        reply.password_source_kind == 3 <==> source is NotNeeded,
        reply.secret is Some <==> source is FromStore,
        source matches PasswordSource::FromStore(secret) ==> reply.secret->0@ == secret@,
        source matches PasswordSource::PromptRequired(reason) ==> {
            &&& reply.prompt_reason == 1 <==> reason is PromptEachTime
            &&& reply.prompt_reason == 2 <==> reason is StoreUnavailable
            &&& reply.prompt_reason == 3 <==> reason is NotStored
            &&& reply.prompt_reason == 4 <==> reason is StoreFailed
            &&& reason matches PromptReason::StoreFailed(error) ==> (reply.error matches Some(told)
                && told@.message == "resolve_password: "@ + error.text@)
        },
        source !is PromptRequired ==> reply.prompt_reason == 0,
{
    reveal_strlit("resolve_password: ");
    reveal_strlit("resolve_password");
    reveal_strlit(": ");
    assert("resolve_password"@ + ": "@ =~= "resolve_password: "@);
    if let PasswordSource::PromptRequired(PromptReason::StoreFailed(error)) = source {
        assert("resolve_password"@ + ": "@ + error.text@ =~= "resolve_password: "@ + error.text@);
    }
}

/// What a reply hands out is counted: one error where it fails, and one object
/// where it carries one.
pub proof fn what_a_reply_hands_out_is_counted(
    queued: QueuedWorkspaceReply,
    live: &mut LiveCounters,
    valid: u32,
    reply: ReldexWorkspaceReply,
)
    requires
        call_ensures(QueuedWorkspaceReply::into_c, (queued, live, valid), reply),
    ensures
        final(live).errors == if reply.error is Some {
            crate::counters::next_count(old(live).errors)
        } else {
            old(live).errors
        },
        final(live).misc_objects == if reply.profile_list is Some || reply.connect is Some
            || reply.secret is Some || reply.history_list is Some || reply.worksheet_list is Some {
            crate::counters::next_count(old(live).misc_objects)
        } else {
            old(live).misc_objects
        },
        final(live).batches == old(live).batches,
        final(live).sessions == old(live).sessions,
{
}

} // verus!
