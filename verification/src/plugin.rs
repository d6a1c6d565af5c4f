//! Plugin events for the host, and the entry points through which the host
//! drives the plugin manager.

use crate::errno::{ERR_CALLBACK_FAILED, ERR_CALLBACK_INVALID_ARGS, ERR_SUCCESS};
use crate::json::{
    json_array_text, json_array_to_string, json_bool, json_doc, json_docs, json_object,
    json_object_insert, json_object_new, json_string, JsonDoc,
};
use crate::marshal::{
    borrowed, c_string, decoded, decodes_to, empty_list_bytes, first_nul, host_string,
    lemma_empty_list_text, string_in, string_out, to_c_string, DecodeError, DecodeErrorView,
    NulError,
};
use crate::plugin_return::{success_view, PluginReturn, ReturnView};
use crate::registry::CallbackSlot;
use vstd::prelude::*;
use vstd::string::StringExecFns;
use vstd::utf8::encode_utf8;

verus! {

/// The event type of a notification about the plugin manager.
pub const MSG_TO_UI_TYPE_PLUGIN_MANAGER: &'static str = "manager";

/// The event type of a notification that a plugin was reloaded.
pub const MSG_TO_UI_TYPE_PLUGIN_RELOAD: &'static str = "reload";

/// The event type of a notification that an option of a plugin changed.
pub const MSG_TO_UI_TYPE_PLUGIN_OPTION: &'static str = "option";

/// The event type of any other notification of a plugin.
pub const MSG_TO_UI_TYPE_PLUGIN_EVENT: &'static str = "generic-event";

/// A result with the given code and message.
pub fn make_error(code: i32, msg: &str) -> (ret: PluginReturn)
    ensures
        ret@ == (ReturnView { code: code as int, msg: msg@ }),
{
    PluginReturn::new(code, msg)
}

/// What the plugin manager reported, with the text of its error as a
/// sequence of characters.
pub open spec fn outcome_view(outcome: Result<(), String>) -> Result<(), Seq<char>> {
    match outcome {
        Ok(_) => Ok(()),
        Err(cause) => Err(cause@),
    }
}

/// The result for the host of an operation that the plugin manager carried
/// out: success, or the failure code with the operation's name, a colon and
/// the manager's own words.
pub open spec fn outcome_return(outcome: Result<(), Seq<char>>, context: Seq<char>) -> ReturnView {
    match outcome {
        Ok(_) => success_view(),
        Err(cause) => ReturnView {
            code: ERR_CALLBACK_FAILED as int,
            msg: context + ": "@ + cause,
        },
    }
}

/// Encodes what the plugin manager reported of the operation named by
/// `context` as a result for the host.
pub fn dispatch_from_result(result: Result<(), String>, context: &str) -> (ret: PluginReturn)
    ensures
        ret@ == outcome_return(outcome_view(result), context@),
        ret@.well_formed(),
        ret@.code == ERR_SUCCESS <==> result is Ok,
{
    match result {
        Ok(_) => PluginReturn::success(),
        Err(err) => {
            let mut msg = context.to_owned();
            msg.append(": ");
            msg.append(err.as_str());
            proof {
                reveal_strlit(": ");
            }
            make_error(ERR_CALLBACK_FAILED, msg.as_str())
        },
    }
}

/// What is to be done with an event for the host.
pub enum EventDispatch<F> {
    /// No callback is registered: nothing is called.
    Skip,
    /// The event type holds a zero byte: the event is dropped.
    BadEventType(NulError),
    /// The payload holds a zero byte: the event is dropped.
    BadPayload(NulError),
    /// The callback is to be called once, with the event type and the
    /// payload as null-terminated strings.
    Invoke { callback: F, event_type: Vec<u8>, payload: Vec<u8> },
}

/// An [`EventDispatch`] as mathematical values.
pub enum EventDispatchView<F> {
    Skip,
    BadEventType { position: int },
    BadPayload { position: int },
    Invoke { callback: F, event_type: Seq<u8>, payload: Seq<u8> },
}

impl<F> View for EventDispatch<F> {
    type V = EventDispatchView<F>;

    open spec fn view(&self) -> EventDispatchView<F> {
        match self {
            EventDispatch::Skip => EventDispatchView::Skip,
            EventDispatch::BadEventType(err) => EventDispatchView::BadEventType {
                position: err.position as int,
            },
            EventDispatch::BadPayload(err) => EventDispatchView::BadPayload {
                position: err.position as int,
            },
            EventDispatch::Invoke { callback, event_type, payload } => EventDispatchView::Invoke {
                callback: *callback,
                event_type: event_type@,
                payload: payload@,
            },
        }
    }
}

/// What is to be done with an event, given the callback that is registered
/// and the bytes of the event type and of the payload. Where neither can be
/// encoded, the event type is the one reported.
pub open spec fn event_dispatch<F>(
    callback: Option<F>,
    event_type: Seq<u8>,
    payload: Seq<u8>,
) -> EventDispatchView<F> {
    match callback {
        None => EventDispatchView::Skip,
        Some(callback) => match (c_string(event_type), c_string(payload)) {
            (Ok(event_type), Ok(payload)) => EventDispatchView::Invoke {
                callback,
                event_type,
                payload,
            },
            (Err(position), _) => EventDispatchView::BadEventType { position },
            (_, Err(position)) => EventDispatchView::BadPayload { position },
        },
    }
}

/// Decides what is to be done with an event: nothing where no callback is
/// registered or a string cannot be encoded, else one call of the registered
/// callback.
pub fn dispatch_event<F: Copy>(
    slot: &CallbackSlot<F>,
    event_type: &str,
    payload: &str,
) -> (action: EventDispatch<F>)
    ensures
        action@ == event_dispatch(slot.current, encode_utf8(event_type@), encode_utf8(payload@)),
        action@ matches EventDispatchView::Invoke { event_type, payload, .. } ==> {
            &&& first_nul(event_type) == Some(event_type.len() - 1)
            &&& first_nul(payload) == Some(payload.len() - 1)
        },
{
    match slot.get() {
        Some(callback) => match (to_c_string(event_type), to_c_string(payload)) {
            (Ok(event_type), Ok(payload)) => EventDispatch::Invoke { callback, event_type, payload },
            (Err(err), _) => EventDispatch::BadEventType(err),
            (_, Err(err)) => EventDispatch::BadPayload(err),
        },
        None => EventDispatch::Skip,
    }
}

/// Once a callback is unregistered, an event calls nothing: whatever was
/// registered before, and whatever the event.
pub proof fn lemma_unregistered_event_is_skipped<F: Copy>(
    slot: CallbackSlot<F>,
    callback: F,
    event_type: Seq<u8>,
    payload: Seq<u8>,
)
    ensures
        event_dispatch(slot.registered(Some(callback)).registered(None).current, event_type, payload)
            == EventDispatchView::<F>::Skip,
{
}

/// Decides what is to be done with a notification about the plugin manager.
pub fn notify_manager_event<F: Copy>(
    slot: &CallbackSlot<F>,
    payload: &str,
) -> (action: EventDispatch<F>)
    ensures
        action@ == event_dispatch(
            slot.current,
            encode_utf8(MSG_TO_UI_TYPE_PLUGIN_MANAGER@),
            encode_utf8(payload@),
        ),
{
    dispatch_event(slot, MSG_TO_UI_TYPE_PLUGIN_MANAGER, payload)
}

/// Decides what is to be done with a notification that a plugin was
/// reloaded.
pub fn notify_reload_event<F: Copy>(
    slot: &CallbackSlot<F>,
    payload: &str,
) -> (action: EventDispatch<F>)
    ensures
        action@ == event_dispatch(
            slot.current,
            encode_utf8(MSG_TO_UI_TYPE_PLUGIN_RELOAD@),
            encode_utf8(payload@),
        ),
{
    dispatch_event(slot, MSG_TO_UI_TYPE_PLUGIN_RELOAD, payload)
}

/// Decides what is to be done with a notification that an option of a plugin
/// changed.
pub fn notify_option_event<F: Copy>(
    slot: &CallbackSlot<F>,
    payload: &str,
) -> (action: EventDispatch<F>)
    ensures
        action@ == event_dispatch(
            slot.current,
            encode_utf8(MSG_TO_UI_TYPE_PLUGIN_OPTION@),
            encode_utf8(payload@),
        ),
{
    dispatch_event(slot, MSG_TO_UI_TYPE_PLUGIN_OPTION, payload)
}

/// Decides what is to be done with any other notification of a plugin.
pub fn notify_plugin_event<F: Copy>(
    slot: &CallbackSlot<F>,
    payload: &str,
) -> (action: EventDispatch<F>)
    ensures
        action@ == event_dispatch(
            slot.current,
            encode_utf8(MSG_TO_UI_TYPE_PLUGIN_EVENT@),
            encode_utf8(payload@),
        ),
{
    dispatch_event(slot, MSG_TO_UI_TYPE_PLUGIN_EVENT, payload)
}

/// The result for the host where the id of a plugin could not be decoded.
pub open spec fn invalid_id_return(err: DecodeErrorView) -> ReturnView {
    ReturnView {
        code: ERR_CALLBACK_INVALID_ARGS as int,
        msg: "Invalid plugin id: "@ + err.message(),
    }
}

/// The result for the host where the id of a plugin, or of a peer, could not
/// be decoded.
pub open spec fn invalid_arguments_return(err: DecodeErrorView) -> ReturnView {
    ReturnView {
        code: ERR_CALLBACK_INVALID_ARGS as int,
        msg: "Invalid plugin arguments: "@ + err.message(),
    }
}

/// What an entry point that names a plugin returns. An id that cannot be
/// decoded gives the invalid-arguments result, whatever `operation` would
/// do. Any other id is handed to `operation`, and the result encodes what
/// it reported: the code is zero exactly if it reported success.
pub open spec fn lifecycle_return<F: FnOnce(&str) -> Result<(), String>>(
    id: Option<Seq<u8>>,
    operation: F,
    context: Seq<char>,
    ret: ReturnView,
) -> bool {
    match decoded(id) {
        Err(err) => ret == invalid_id_return(err),
        Ok(text) => exists|plugin: &str, outcome: Result<(), String>|
            {
                &&& plugin@ == text
                &&& call_ensures(operation, (plugin,), outcome)
                &&& ret == outcome_return(outcome_view(outcome), context)
                &&& (ret.code == ERR_SUCCESS <==> outcome is Ok)
            },
    }
}

/// What an entry point that names a plugin asks of `operation`: that it can
/// be called with the id that the host's string decodes to. Of a string that
/// does not decode nothing is asked, so for none is `operation` called.
pub open spec fn lifecycle_requires<F: FnOnce(&str) -> Result<(), String>>(
    id: Option<Seq<u8>>,
    operation: F,
) -> bool {
    forall|plugin: &str| decodes_to(id, plugin@) ==> call_requires(operation, (plugin,))
}

/// An id that decodes is handed to the plugin manager's operation, and
/// the host learns what it reported: code zero exactly if it reported
/// success, and an empty message exactly with code zero.
pub proof fn lemma_decodable_id_relays_outcome<F: FnOnce(&str) -> Result<(), String>>(
    id: Option<Seq<u8>>,
    operation: F,
    context: Seq<char>,
    ret: ReturnView,
)
    requires
        decoded(id) is Ok,
        lifecycle_return(id, operation, context, ret),
    ensures
        exists|plugin: &str, outcome: Result<(), String>|
            {
                &&& decodes_to(id, plugin@)
                &&& call_ensures(operation, (plugin,), outcome)
                &&& (ret.code == ERR_SUCCESS <==> outcome is Ok)
            },
        ret.code == ERR_SUCCESS <==> ret.msg.len() == 0,
{
    reveal_strlit(": ");
    let (plugin, outcome) = choose|plugin: &str, outcome: Result<(), String>|
        {
            &&& plugin@ == decoded(id)->Ok_0
            &&& call_ensures(operation, (plugin,), outcome)
            &&& ret == outcome_return(outcome_view(outcome), context)
            &&& (ret.code == ERR_SUCCESS <==> outcome is Ok)
        };
    assert(decodes_to(id, plugin@));
}

/// An id that does not decode, a null pointer among them, is answered with
/// the invalid-arguments code, and the entry point asks nothing of the
/// plugin manager's operation: it accepts even one that can never be
/// called, so it calls none.
pub proof fn lemma_undecodable_id_rejected<F: FnOnce(&str) -> Result<(), String>>(
    id: Option<Seq<u8>>,
    operation: F,
    context: Seq<char>,
    ret: ReturnView,
)
    requires
        decoded(id) is Err,
        lifecycle_return(id, operation, context, ret),
    ensures
        lifecycle_requires(id, operation),
        ret.code == ERR_CALLBACK_INVALID_ARGS,
        ret == invalid_id_return(decoded(id)->Err_0),
{
}

/// The result for the host where the id of a plugin could not be decoded.
pub fn invalid_plugin_id(err: &DecodeError) -> (ret: PluginReturn)
    ensures
        ret@ == invalid_id_return(err@),
        ret@.well_formed(),
        ret@.code != ERR_SUCCESS,
{
    let mut msg = "Invalid plugin id: ".to_owned();
    msg.append(err.message().as_str());
    proof {
        reveal_strlit("Invalid plugin id: ");
    }
    make_error(ERR_CALLBACK_INVALID_ARGS, msg.as_str())
}

fn lifecycle<F: FnOnce(&str) -> Result<(), String>>(
    id: Option<&[u8]>,
    operation: F,
    context: &str,
) -> (ret: PluginReturn)
    requires
        lifecycle_requires(borrowed(id), operation),
    ensures
        lifecycle_return(borrowed(id), operation, context@, ret@),
        ret@.well_formed(),
{
    match string_in(id) {
        Ok(id) => {
            let outcome = operation(id.as_str());
            dispatch_from_result(outcome, context)
        },
        Err(err) => invalid_plugin_id(&err),
    }
}

/// Loads the plugin that the host names: `load` is the plugin manager's
/// operation, called with the decoded id.
pub fn rustdesk_unity_load_plugin<F: FnOnce(&str) -> Result<(), String>>(
    id: Option<&[u8]>,
    load: F,
) -> (ret: PluginReturn)
    requires
        lifecycle_requires(borrowed(id), load),
    ensures
        lifecycle_return(borrowed(id), load, "Load plugin"@, ret@),
        ret@.well_formed(),
{
    lifecycle(id, load, "Load plugin")
}

/// Unloads the plugin that the host names: `unload` is the plugin manager's
/// operation, called with the decoded id.
pub fn rustdesk_unity_unload_plugin<F: FnOnce(&str) -> Result<(), String>>(
    id: Option<&[u8]>,
    unload: F,
) -> (ret: PluginReturn)
    requires
        lifecycle_requires(borrowed(id), unload),
    ensures
        lifecycle_return(borrowed(id), unload, "Unload plugin"@, ret@),
        ret@.well_formed(),
{
    lifecycle(id, unload, "Unload plugin")
}

/// Reloads the plugin that the host names: `reload` is the plugin manager's
/// operation, called with the decoded id.
pub fn rustdesk_unity_reload_plugin<F: FnOnce(&str) -> Result<(), String>>(
    id: Option<&[u8]>,
    reload: F,
) -> (ret: PluginReturn)
    requires
        lifecycle_requires(borrowed(id), reload),
    ensures
        lifecycle_return(borrowed(id), reload, "Reload plugin"@, ret@),
        ret@.well_formed(),
{
    lifecycle(id, reload, "Reload plugin")
}

/// Starts the plugin framework: `init` is the plugin manager's operation.
/// It is run to its end, so what it ensures of its run holds afterwards, and
/// the host is told of success whatever it did.
pub fn rustdesk_unity_init_plugin_framework<F: FnOnce() -> ()>(init: F) -> (ret: PluginReturn)
    requires
        call_requires(init, ()),
    ensures
        call_ensures(init, (), ()),
        ret@ == success_view(),
        ret@.well_formed(),
{
    init();
    PluginReturn::success()
}

/// The id of a plugin and the id of a peer as the host's two strings decode
/// to them, or why the first of them that does not decode does not.
pub open spec fn decoded_pair(id: Option<Seq<u8>>, peer: Option<Seq<u8>>) -> Result<
    (Seq<char>, Seq<char>),
    DecodeErrorView,
> {
    match decoded(id) {
        Err(err) => Err(err),
        Ok(id) => match decoded(peer) {
            Err(err) => Err(err),
            Ok(peer) => Ok((id, peer)),
        },
    }
}

/// Decodes the id of a plugin and the id of a peer.
pub fn get_id_and_peer(
    id: Option<&[u8]>,
    peer: Option<&[u8]>,
) -> (r: Result<(String, String), DecodeError>)
    ensures
        match r {
            Ok((id_text, peer_text)) => decoded_pair(borrowed(id), borrowed(peer)) == Ok::<
                (Seq<char>, Seq<char>),
                DecodeErrorView,
            >((id_text@, peer_text@)),
            Err(err) => decoded_pair(borrowed(id), borrowed(peer)) == Err::<
                (Seq<char>, Seq<char>),
                DecodeErrorView,
            >(err@),
        },
{
    let id = match string_in(id) {
        Ok(id) => id,
        Err(err) => {
            return Err(err);
        },
    };
    let peer = match string_in(peer) {
        Ok(peer) => peer,
        Err(err) => {
            return Err(err);
        },
    };
    Ok((id, peer))
}

/// What an entry point that hands an event to a plugin returns. Where the
/// id of the plugin or of the peer cannot be decoded, the invalid-arguments
/// result, whatever `handler` would do. Else both ids and the event's bytes,
/// as they are, are handed to `handler`, and the result encodes what it
/// reported: the code is zero exactly if it reported success.
pub open spec fn event_return<F: FnOnce(&str, &str, &[u8]) -> Result<(), String>>(
    id: Option<Seq<u8>>,
    peer: Option<Seq<u8>>,
    event: &[u8],
    handler: F,
    context: Seq<char>,
    ret: ReturnView,
) -> bool {
    match decoded_pair(id, peer) {
        Err(err) => ret == invalid_arguments_return(err),
        Ok((id_text, peer_text)) => exists|plugin: &str, from: &str, outcome: Result<(), String>|
            {
                &&& plugin@ == id_text
                &&& from@ == peer_text
                &&& call_ensures(handler, (plugin, from, event), outcome)
                &&& ret == outcome_return(outcome_view(outcome), context)
                &&& (ret.code == ERR_SUCCESS <==> outcome is Ok)
            },
    }
}

/// What an entry point that hands an event to a plugin asks of `handler`:
/// that it can be called with the ids that the host's strings decode to and
/// the event's bytes. Where one of the strings does not decode nothing is
/// asked, so `handler` is not called.
pub open spec fn event_requires<F: FnOnce(&str, &str, &[u8]) -> Result<(), String>>(
    id: Option<Seq<u8>>,
    peer: Option<Seq<u8>>,
    event: &[u8],
    handler: F,
) -> bool {
    forall|plugin: &str, from: &str|
        decodes_to(id, plugin@) && decodes_to(peer, from@) ==> call_requires(
            handler,
            (plugin, from, event),
        )
}

/// The result for the host where the id of a plugin, or of a peer, could not
/// be decoded.
pub fn invalid_plugin_arguments(err: &DecodeError) -> (ret: PluginReturn)
    ensures
        ret@ == invalid_arguments_return(err@),
        ret@.well_formed(),
        ret@.code != ERR_SUCCESS,
{
    let mut msg = "Invalid plugin arguments: ".to_owned();
    msg.append(err.message().as_str());
    proof {
        reveal_strlit("Invalid plugin arguments: ");
    }
    make_error(ERR_CALLBACK_INVALID_ARGS, msg.as_str())
}

fn handle_event<F: FnOnce(&str, &str, &[u8]) -> Result<(), String>>(
    id: Option<&[u8]>,
    peer: Option<&[u8]>,
    event: &[u8],
    handler: F,
    context: &str,
) -> (ret: PluginReturn)
    requires
        event_requires(borrowed(id), borrowed(peer), event, handler),
    ensures
        event_return(borrowed(id), borrowed(peer), event, handler, context@, ret@),
        ret@.well_formed(),
{
    let (id, peer) = match get_id_and_peer(id, peer) {
        Ok(v) => v,
        Err(err) => {
            return invalid_plugin_arguments(&err);
        },
    };
    let outcome = handler(id.as_str(), peer.as_str(), event);
    dispatch_from_result(outcome, context)
}

/// Hands an event of the user interface to a plugin: `handler` is the
/// plugin manager's operation, called with the decoded ids of the plugin and
/// of the peer and with the bytes of the event, which are lent for the call.
pub fn rustdesk_unity_handle_ui_event<F: FnOnce(&str, &str, &[u8]) -> Result<(), String>>(
    id: Option<&[u8]>,
    peer: Option<&[u8]>,
    event: &[u8],
    handler: F,
) -> (ret: PluginReturn)
    requires
        event_requires(borrowed(id), borrowed(peer), event, handler),
    ensures
        event_return(borrowed(id), borrowed(peer), event, handler, "Handle UI event"@, ret@),
        ret@.well_formed(),
{
    handle_event(id, peer, event, handler, "Handle UI event")
}

/// Hands an event of the server to a plugin: `handler` is the plugin
/// manager's operation, called with the decoded ids of the plugin and of the
/// peer and with the bytes of the event, which are lent for the call.
pub fn rustdesk_unity_handle_server_event<F: FnOnce(&str, &str, &[u8]) -> Result<(), String>>(
    id: Option<&[u8]>,
    peer: Option<&[u8]>,
    event: &[u8],
    handler: F,
) -> (ret: PluginReturn)
    requires
        event_requires(borrowed(id), borrowed(peer), event, handler),
    ensures
        event_return(borrowed(id), borrowed(peer), event, handler, "Handle server event"@, ret@),
        ret@.well_formed(),
{
    handle_event(id, peer, event, handler, "Handle server event")
}

/// Registers the callback that receives plugin events, in place of the one
/// registered before; `None` unregisters.
pub fn rustdesk_unity_register_event_callback<F: Copy>(
    slot: &mut CallbackSlot<F>,
    callback: Option<F>,
)
    ensures
        *final(slot) == old(slot).registered(callback),
{
    slot.register(callback);
}

/// What the plugin manager knows of one plugin.
#[derive(Debug, PartialEq, Eq)]
pub struct PluginInfo {
    pub id: String,
    pub desc: String,
    pub path: String,
    pub uninstalled: bool,
}

/// The JSON object that stands for a plugin in the listing: its
/// description, its path and whether it was uninstalled.
pub open spec fn descriptor_doc(info: PluginInfo) -> JsonDoc {
    JsonDoc::Object(
        Map::<Seq<char>, JsonDoc>::empty().insert("desc"@, JsonDoc::Text(info.desc@)).insert(
            "path"@,
            JsonDoc::Text(info.path@),
        ).insert("uninstalled"@, JsonDoc::Flag(info.uninstalled)),
    )
}

/// The text of the listing, given what serialising it gave: that text, or an
/// empty list where there is none.
pub open spec fn listing_text(serialized: Option<Seq<char>>) -> Seq<char> {
    match serialized {
        Some(text) => text,
        None => "[]"@,
    }
}

/// The text of the listing, given what serialising it gave: that text, or an
/// empty list where it failed.
pub fn descriptor_listing(serialized: Option<String>) -> (text: String)
    ensures
        text@ == listing_text(
            match serialized {
                Some(text) => Some(text@),
                None => None,
            },
        ),
{
    match serialized {
        Some(text) => text,
        None => "[]".to_owned(),
    }
}

/// Lists the plugins for the host, in the order given: a JSON array with
/// one object for each, as a null-terminated buffer that the host owns from
/// then on. Without plugins the text is an empty list.
pub fn rustdesk_unity_get_plugins(infos: &Vec<PluginInfo>) -> (buffer: Vec<u8>)
    ensures
        buffer@ == host_string(
            encode_utf8(
                listing_text(
                    json_array_text(infos@.map_values(|info: PluginInfo| descriptor_doc(info))),
                ),
            ),
        ),
        first_nul(buffer@) == Some(buffer@.len() - 1),
        infos@.len() == 0 ==> buffer@ == empty_list_bytes().push(0u8),
{
    proof {
        lemma_empty_list_text();
    }
    let mut payload: Vec<serde_json::Value> = Vec::new();
    let mut i: usize = 0;
    while i < infos.len()
        invariant
            i <= infos.len(),
            payload@.len() == i,
            forall|j: int| 0 <= j < i ==> json_doc(#[trigger] payload@[j]) == descriptor_doc(infos@[j]),
        decreases infos.len() - i,
    {
        let info = &infos[i];
        let mut object = json_object_new();
        json_object_insert(&mut object, "desc".to_owned(), json_string(info.desc.as_str()));
        json_object_insert(&mut object, "path".to_owned(), json_string(info.path.as_str()));
        json_object_insert(&mut object, "uninstalled".to_owned(), json_bool(info.uninstalled));
        payload.push(json_object(object));
        i += 1;
    }
    assert(json_docs(payload@) =~= infos@.map_values(|info: PluginInfo| descriptor_doc(info)));
    let json = descriptor_listing(json_array_to_string(&payload));
    string_out(json.as_str())
}

} // verus!
