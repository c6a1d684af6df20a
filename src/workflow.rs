//! Replies to inbound events and the pending-binding workflow, as plans of
//! outbound operations that the caller performs in order, stopping at the
//! first one that fails.
use vstd::prelude::*;
use vstd::string::*;
use crate::event::{classify_event, classify_spec, InboundEvent, RawEvent};
use crate::paths::{pending_object_path, pending_object_spec, public_url, public_url_spec};
use crate::postback::{callback_data, callback_data_spec, form_decoded, parse_postback, postback_fields_spec};
use crate::registry::PresetRegistry;
use crate::text::{text_eq, trim_text, trimmed};

verus! {

/// What the service runs with; read-only once built.
pub struct BotConfig {
    /// The storage bucket that holds preset images and pending uploads.
    pub gcs_bucket: String,
    /// Users allowed to upload images.
    pub admin_user_ids: Vec<String>,
    /// Short codes and the object paths they stand for.
    pub presets: PresetRegistry,
}

/// One selectable action of a prompt: its label and its callback data.
pub struct PromptAction {
    pub label: String,
    pub data: String,
}

/// An outbound call. Replies are addressed by the event's reply token.
pub enum Operation {
    /// Download the content of a message from the platform.
    FetchContent { message_id: String },
    /// Store the content fetched last at `object` (as JPEG).
    UploadContent { object: String },
    /// Copy the object at `source` to `dest`, overwriting `dest`.
    CopyObject { source: String, dest: String },
    /// Reply with a text message.
    ReplyText { reply_token: String, text: String },
    /// Reply with an image; the full-size and the preview image share the URL.
    ReplyImage { reply_token: String, url: String },
    /// Reply with a button template: one postback action per entry.
    ReplyPrompt { reply_token: String, text: String, actions: Vec<PromptAction> },
}

/// The mathematical content of an `Operation`.
pub enum Step {
    Fetch(Seq<char>),
    Upload(Seq<char>),
    Copy(Seq<char>, Seq<char>),
    Text(Seq<char>, Seq<char>),
    Image(Seq<char>, Seq<char>),
    Prompt(Seq<char>, Seq<char>, Seq<(Seq<char>, Seq<char>)>),
}

impl View for PromptAction {
    type V = (Seq<char>, Seq<char>);

    open spec fn view(&self) -> (Seq<char>, Seq<char>) {
        (self.label@, self.data@)
    }
}

/// The text view of a list of prompt actions.
pub open spec fn actions_view(actions: Seq<PromptAction>) -> Seq<(Seq<char>, Seq<char>)> {
    actions.map_values(|a: PromptAction| a@)
}

impl View for Operation {
    type V = Step;

    open spec fn view(&self) -> Step {
        match self {
            Operation::FetchContent { message_id } => Step::Fetch(message_id@),
            Operation::UploadContent { object } => Step::Upload(object@),
            Operation::CopyObject { source, dest } => Step::Copy(source@, dest@),
            Operation::ReplyText { reply_token, text } => Step::Text(reply_token@, text@),
            Operation::ReplyImage { reply_token, url } => Step::Image(reply_token@, url@),
            Operation::ReplyPrompt { reply_token, text, actions } => Step::Prompt(
                reply_token@,
                text@,
                actions_view(actions@),
            ),
        }
    }
}

/// The steps of a plan.
pub open spec fn plan_view(ops: Seq<Operation>) -> Seq<Step> {
    ops.map_values(|o: Operation| o@)
}

/// Reply to an image upload from a user who is not an admin.
pub open spec fn admin_only_text() -> Seq<char> {
    "この操作は管理者のみ可能です。"@
}

/// Reply to a postback whose target is not a registered key.
pub open spec fn not_found_text() -> Seq<char> {
    "指定されたメッセージが見つかりません。"@
}

/// Question of the prompt that offers the presets.
pub open spec fn prompt_text() -> Seq<char> {
    "どのメッセージに紐づけますか？"@
}

/// Confirmation that the image of `key` was replaced.
pub open spec fn updated_text(key: Seq<char>) -> Seq<char> {
    "画像を更新しました: "@ + key
}

/// The text view of an optional user id.
pub open spec fn user_view(user_id: Option<&str>) -> Option<Seq<char>> {
    match user_id {
        Some(u) => Some(u@),
        None => None,
    }
}

/// The text view of an optional owned user id.
pub open spec fn owned_user_view(user_id: Option<String>) -> Option<Seq<char>> {
    match user_id {
        Some(u) => Some(u@),
        None => None,
    }
}

/// The text view of the admin list.
pub open spec fn admins_view(admins: Seq<String>) -> Seq<Seq<char>> {
    admins.map_values(|a: String| a@)
}

/// A user is an admin when the source names one and it is in the list,
/// by exact equality.
pub open spec fn is_admin_spec(user_id: Option<Seq<char>>, admins: Seq<Seq<char>>) -> bool {
    match user_id {
        Some(u) => admins.contains(u),
        None => false,
    }
}

/// Whether the sender may upload images.
pub fn is_admin(user_id: Option<&str>, admins: &[String]) -> (r: bool)
    ensures
        r == is_admin_spec(user_view(user_id), admins_view(admins@)),
{
    let uid = match user_id {
        Some(u) => u,
        None => return false,
    };
    let mut i: usize = 0;
    while i < admins.len()
        invariant
            i <= admins@.len(),
            user_id == Some(uid),
            forall|j: int| 0 <= j < i ==> #[trigger] admins@[j]@ != uid@,
        decreases admins@.len() - i,
    {
        if text_eq(admins[i].as_str(), uid) {
            assert(admins_view(admins@)[i as int] == uid@);
            assert(admins_view(admins@).contains(uid@));
            return true;
        }
        i = i + 1;
    }
    assert forall|j: int| 0 <= j < admins_view(admins@).len() implies admins_view(admins@)[j] != uid@ by {
        assert(admins@[j]@ != uid@);
    }
    false
}

/// The registered keys, in registry order.
pub open spec fn preset_keys(presets: &PresetRegistry) -> Seq<Seq<char>> {
    presets@.map_values(|e: (Seq<char>, Seq<char>)| e.0)
}

/// One action per key, each naming the pending binding and the key.
pub open spec fn prompt_actions_spec(keys: Seq<Seq<char>>, pending_id: Seq<char>) -> Seq<(Seq<char>, Seq<char>)> {
    keys.map_values(|k: Seq<char>| (k, callback_data_spec(pending_id, k)))
}

/// A text message: the image of the preset named by the trimmed text, or the
/// trimmed text echoed back.
pub open spec fn text_plan(cfg: &BotConfig, token: Seq<char>, text: Seq<char>) -> Seq<Step> {
    match cfg.presets.path_of(trimmed(text)) {
        Some(path) => seq![Step::Image(token, public_url_spec(cfg.gcs_bucket@, path))],
        None => seq![Step::Text(token, trimmed(text))],
    }
}

/// An image message: refused unless the sender is an admin; else the content
/// is fetched, staged at the pending object of `pending_id`, and the sender
/// is asked which preset it replaces.
pub open spec fn image_plan(
    cfg: &BotConfig,
    token: Seq<char>,
    user_id: Option<Seq<char>>,
    message_id: Seq<char>,
    pending_id: Seq<char>,
) -> Seq<Step> {
    if is_admin_spec(user_id, admins_view(cfg.admin_user_ids@)) {
        seq![
            Step::Fetch(message_id),
            Step::Upload(pending_object_spec(pending_id)),
            Step::Prompt(token, prompt_text(), prompt_actions_spec(preset_keys(&cfg.presets), pending_id)),
        ]
    } else {
        seq![Step::Text(token, admin_only_text())]
    }
}

/// A promotion request: refused for an unknown key; else the pending object
/// is copied over the preset's object, then confirmed by a text and the new
/// image.
pub open spec fn promotion_plan(cfg: &BotConfig, token: Seq<char>, pending_id: Seq<char>, target: Seq<char>) -> Seq<Step> {
    match cfg.presets.path_of(target) {
        Some(path) => seq![
            Step::Copy(pending_object_spec(pending_id), path),
            Step::Text(token, updated_text(target)),
            Step::Image(token, public_url_spec(cfg.gcs_bucket@, path)),
        ],
        None => seq![Step::Text(token, not_found_text())],
    }
}

/// A postback: nothing unless its data names both a pending id and a target.
pub open spec fn postback_plan(cfg: &BotConfig, token: Seq<char>, fields: Option<(Seq<char>, Seq<char>)>) -> Seq<Step> {
    match fields {
        Some((pending_id, target)) => promotion_plan(cfg, token, pending_id, target),
        None => seq![],
    }
}

/// The callback data of a postback; empty where none was sent.
pub open spec fn data_view(data: Option<String>) -> Seq<char> {
    match data {
        Some(d) => d@,
        None => ""@,
    }
}

/// The plan for any event; `pending_id` names the binding that an admin's
/// image upload would create.
pub open spec fn event_plan(cfg: &BotConfig, event: &InboundEvent, pending_id: Seq<char>) -> Seq<Step> {
    match event {
        InboundEvent::Text { reply_token, text } => text_plan(cfg, reply_token@, text@),
        InboundEvent::Image { reply_token, user_id, message_id } => image_plan(
            cfg,
            reply_token@,
            owned_user_view(*user_id),
            message_id@,
            pending_id,
        ),
        InboundEvent::Postback { reply_token, data } => postback_plan(
            cfg,
            reply_token@,
            postback_fields_spec(form_decoded(data_view(*data))),
        ),
        InboundEvent::Ignored => seq![],
    }
}

/// Replies to a text message with the preset image that the trimmed text
/// names, or by echoing the trimmed text.
pub fn plan_text(cfg: &BotConfig, reply_token: &str, text: &str) -> (r: Vec<Operation>)
    ensures
        plan_view(r@) == text_plan(cfg, reply_token@, text@),
        plan_view(r@).len() == 1,
        (plan_view(r@)[0] is Image) <==> cfg.presets.has_key(trimmed(text@)),
        (plan_view(r@)[0] is Text) <==> !cfg.presets.has_key(trimmed(text@)),
{
    let t = trim_text(text);
    let mut ops: Vec<Operation> = Vec::new();
    match cfg.presets.get(t) {
        Some(path) => {
            let url = public_url(cfg.gcs_bucket.as_str(), path.as_str());
            ops.push(Operation::ReplyImage { reply_token: reply_token.to_owned(), url });
        },
        None => {
            ops.push(Operation::ReplyText { reply_token: reply_token.to_owned(), text: t.to_owned() });
        },
    }
    assert(plan_view(ops@) =~= text_plan(cfg, reply_token@, text@));
    ops
}

/// The actions of the prompt for `pending_id`: one per preset, in registry order.
pub fn prompt_actions(presets: &PresetRegistry, pending_id: &str) -> (r: Vec<PromptAction>)
    ensures
        actions_view(r@) == prompt_actions_spec(preset_keys(presets), pending_id@),
{
    let keys = presets.keys();
    let mut actions: Vec<PromptAction> = Vec::new();
    let mut i: usize = 0;
    while i < keys.len()
        invariant
            i <= keys@.len(),
            keys@.len() == presets@.len(),
            forall|j: int| 0 <= j < keys@.len() ==> #[trigger] keys@[j]@ == presets@[j].0,
            actions@.len() == i,
            forall|j: int| 0 <= j < i ==> #[trigger] actions@[j]@ == (keys@[j]@, callback_data_spec(pending_id@, keys@[j]@)),
        decreases keys@.len() - i,
    {
        let data = callback_data(pending_id, keys[i].as_str());
        actions.push(PromptAction { label: keys[i].clone(), data });
        i = i + 1;
    }
    assert(actions_view(actions@) =~= prompt_actions_spec(preset_keys(presets), pending_id@));
    actions
}

/// Handles an image message: an access-denied reply for anyone but an admin;
/// for an admin, fetch the content, stage it as `uploads/<pending_id>.jpg`,
/// then ask which preset it replaces.
pub fn plan_image(
    cfg: &BotConfig,
    reply_token: &str,
    user_id: Option<&str>,
    message_id: &str,
    pending_id: &str,
) -> (r: Vec<Operation>)
    ensures
        plan_view(r@) == image_plan(cfg, reply_token@, user_view(user_id), message_id@, pending_id@),
{
    let mut ops: Vec<Operation> = Vec::new();
    if !is_admin(user_id, cfg.admin_user_ids.as_slice()) {
        ops.push(Operation::ReplyText {
            reply_token: reply_token.to_owned(),
            text: String::from_str("この操作は管理者のみ可能です。"),
        });
    } else {
        ops.push(Operation::FetchContent { message_id: message_id.to_owned() });
        ops.push(Operation::UploadContent { object: pending_object_path(pending_id) });
        let actions = prompt_actions(&cfg.presets, pending_id);
        ops.push(Operation::ReplyPrompt {
            reply_token: reply_token.to_owned(),
            text: String::from_str("どのメッセージに紐づけますか？"),
            actions,
        });
    }
    assert(plan_view(ops@) =~= image_plan(cfg, reply_token@, user_view(user_id), message_id@, pending_id@));
    ops
}

/// Promotes the pending binding `pending_id` to the preset `target`: a
/// not-found reply for an unknown key; else copy the staged object over the
/// preset's object and confirm with a text and the new image.
pub fn plan_promotion(cfg: &BotConfig, reply_token: &str, pending_id: &str, target: &str) -> (r: Vec<Operation>)
    ensures
        plan_view(r@) == promotion_plan(cfg, reply_token@, pending_id@, target@),
{
    let mut ops: Vec<Operation> = Vec::new();
    match cfg.presets.get(target) {
        Some(path) => {
            ops.push(Operation::CopyObject { source: pending_object_path(pending_id), dest: path.clone() });
            let mut text = String::from_str("画像を更新しました: ");
            text.append(target);
            ops.push(Operation::ReplyText { reply_token: reply_token.to_owned(), text });
            let url = public_url(cfg.gcs_bucket.as_str(), path.as_str());
            ops.push(Operation::ReplyImage { reply_token: reply_token.to_owned(), url });
        },
        None => {
            ops.push(Operation::ReplyText {
                reply_token: reply_token.to_owned(),
                text: String::from_str("指定されたメッセージが見つかりません。"),
            });
        },
    }
    assert(plan_view(ops@) =~= promotion_plan(cfg, reply_token@, pending_id@, target@));
    ops
}

/// Handles a postback from its callback data.
pub fn plan_postback(cfg: &BotConfig, reply_token: &str, data: &str) -> (r: Vec<Operation>)
    ensures
        plan_view(r@) == postback_plan(cfg, reply_token@, postback_fields_spec(form_decoded(data@))),
{
    match parse_postback(data) {
        Some((pending_id, target)) => plan_promotion(cfg, reply_token, pending_id.as_str(), target.as_str()),
        None => {
            let ops: Vec<Operation> = Vec::new();
            assert(plan_view(ops@) =~= seq![]);
            ops
        },
    }
}

/// The plan for one event, with `pending_id` for the binding that an admin's
/// image upload creates.
pub fn plan_event(cfg: &BotConfig, event: &InboundEvent, pending_id: &str) -> (r: Vec<Operation>)
    ensures
        plan_view(r@) == event_plan(cfg, event, pending_id@),
{
    match event {
        InboundEvent::Text { reply_token, text } => plan_text(cfg, reply_token.as_str(), text.as_str()),
        InboundEvent::Image { reply_token, user_id, message_id } => {
            let uid: Option<&str> = match user_id {
                Some(u) => Some(u.as_str()),
                None => None,
            };
            plan_image(cfg, reply_token.as_str(), uid, message_id.as_str(), pending_id)
        },
        InboundEvent::Postback { reply_token, data } => {
            let d: &str = match data {
                Some(d) => d.as_str(),
                None => "",
            };
            plan_postback(cfg, reply_token.as_str(), d)
        },
        InboundEvent::Ignored => {
            let ops: Vec<Operation> = Vec::new();
            assert(plan_view(ops@) =~= seq![]);
            ops
        },
    }
}

/// Text of a UUID in hyphenated lowercase form.
pub open spec fn is_uuid_text(s: Seq<char>) -> bool {
    &&& s.len() == 36
    &&& forall|i: int|
        0 <= i < s.len() ==> ('0' <= #[trigger] s[i] <= '9' || 'a' <= s[i] <= 'f' || s[i] == '-')
}

/// Relies on uuid's `Uuid::new_v4` and its `Display`: a random version-4
/// UUID, written as 36 characters of lowercase hex digits and hyphens.
#[verifier::external_body]
fn new_pending_id() -> (r: String)
    ensures
        is_uuid_text(r@),
{
    uuid::Uuid::new_v4().to_string()
}

/// The plan for one event. An image message gets a fresh random pending id;
/// every other event is planned without one.
pub fn handle_event(cfg: &BotConfig, event: &InboundEvent) -> (r: Vec<Operation>)
    ensures
        event is Image ==> exists|id: Seq<char>|
            is_uuid_text(id) && plan_view(r@) == #[trigger] event_plan(cfg, event, id),
        !(event is Image) ==> plan_view(r@) == event_plan(cfg, event, Seq::empty()),
{
    match event {
        InboundEvent::Image { .. } => {
            let pending_id = new_pending_id();
            let ops = plan_event(cfg, event, pending_id.as_str());
            assert(is_uuid_text(pending_id@) && plan_view(ops@) == event_plan(cfg, event, pending_id@));
            ops
        },
        _ => {
            proof {
                reveal_strlit("");
            }
            let ops = plan_event(cfg, event, "");
            assert(""@ =~= Seq::<char>::empty());
            ops
        },
    }
}

/// `plan` is what the service does for the decoded event `raw`: an image
/// message under some fresh UUID as its pending id, any other event as is.
pub open spec fn planned_for(cfg: &BotConfig, raw: &RawEvent, plan: Seq<Step>) -> bool {
    let event = classify_spec(raw);
    if event is Image {
        exists|id: Seq<char>| is_uuid_text(id) && plan == #[trigger] event_plan(cfg, &event, id)
    } else {
        plan == event_plan(cfg, &event, Seq::empty())
    }
}

/// Plans every event of a delivery, in order: one plan per event. Each plan
/// is performed on its own, so one that fails stops only itself.
pub fn plan_delivery(cfg: &BotConfig, events: &Vec<RawEvent>) -> (r: Vec<Vec<Operation>>)
    ensures
        r@.len() == events@.len(),
        forall|i: int| 0 <= i < events@.len() ==> planned_for(cfg, &events@[i], plan_view(#[trigger] r@[i]@)),
{
    let mut plans: Vec<Vec<Operation>> = Vec::new();
    let mut i: usize = 0;
    while i < events.len()
        invariant
            i <= events@.len(),
            plans@.len() == i,
            forall|j: int| 0 <= j < i ==> planned_for(cfg, &events@[j], plan_view(#[trigger] plans@[j]@)),
        decreases events@.len() - i,
    {
        let event = classify_event(&events[i]);
        let ops = handle_event(cfg, &event);
        plans.push(ops);
        i = i + 1;
    }
    plans
}

/// An image from a sender outside the admin list is answered with one text
/// reply: its content is neither fetched nor stored.
pub proof fn lemma_non_admin_never_uploads(cfg: &BotConfig, event: &InboundEvent, pending_id: Seq<char>)
    requires
        event matches InboundEvent::Image { user_id, .. } && !is_admin_spec(
            owned_user_view(*user_id),
            admins_view(cfg.admin_user_ids@),
        ),
    ensures
        event_plan(cfg, event, pending_id).len() == 1,
        event_plan(cfg, event, pending_id)[0] == Step::Text(event->Image_reply_token@, admin_only_text()),
        forall|i: int| 0 <= i < event_plan(cfg, event, pending_id).len() ==> {
            let step = #[trigger] event_plan(cfg, event, pending_id)[i];
            !(step is Upload) && !(step is Fetch) && !(step is Copy)
        },
{
}

/// A postback whose data does not name a registered target (or lacks a
/// field) never copies an object.
pub proof fn lemma_unknown_target_never_copies(cfg: &BotConfig, event: &InboundEvent, pending_id: Seq<char>)
    requires
        event matches InboundEvent::Postback { data, .. } && (postback_fields_spec(
            form_decoded(data_view(*data)),
        ) matches Some((p, t)) ==> !cfg.presets.has_key(t)),
    ensures
        forall|i: int| 0 <= i < event_plan(cfg, event, pending_id).len() ==>
            !(#[trigger] event_plan(cfg, event, pending_id)[i] is Copy),
{
}

/// A postback naming a pending binding and a registered target copies
/// exactly once: from the staged object to the target's configured path,
/// before any reply.
pub proof fn lemma_known_target_copies_once(
    cfg: &BotConfig,
    event: &InboundEvent,
    pending_id: Seq<char>,
    staged: Seq<char>,
    target: Seq<char>,
)
    requires
        event matches InboundEvent::Postback { data, .. } && postback_fields_spec(
            form_decoded(data_view(*data)),
        ) == Some((staged, target)),
        cfg.presets.has_key(target),
    ensures
        event_plan(cfg, event, pending_id).len() == 3,
        event_plan(cfg, event, pending_id)[0] == Step::Copy(
            pending_object_spec(staged),
            cfg.presets.path_of(target)->Some_0,
        ),
        forall|i: int| 1 <= i < event_plan(cfg, event, pending_id).len() ==>
            !(#[trigger] event_plan(cfg, event, pending_id)[i] is Copy),
{
}

} // verus!
