//! The Kotlin `ws_rpc` client: a transport that owns the socket, a per-operation client, and a
//! dispatcher attachment for a service the app implements. A reply's `error` key carries the
//! operation's declared error verbatim, or `{ "isServiceFault": true, "fault": <fault fields> }`.
//!
//! Every type an operation names is rendered through the Kotlin emitter's own [`kotlin_typename`],
//! in the order the pieces are written: the client's methods, then the handlers, then the
//! dispatch arms. A tuple among them queues its wrapper on the [`KotlinState`] it threads.

use crate::field_def::unit_type;
use crate::kotlin::{KotlinState, KotlinView, kotlin_typename, kt_typename};
use crate::kotlin_laws::{
    contains_text, lemma_contains_at, lemma_contains_in_prefix, lemma_contains_in_suffix, lemma_contains_shorter, lemma_only_queues_trans, lemma_rendering_only_queues, lemma_tuple_free_rendering_is_stable,
    only_queues, tuple_free,
};
use crate::kotlin_ws_text::{
    arm_decode_layout, arm_decode_text, attach_dispatcher_layout, attach_dispatcher_text,
    attachment_class, attachment_class_text, client_class_layout, client_class_layout_text,
    declared_value_layout, declared_value_text, dispatch_layout, dispatch_layout_text,
    failed_validation_doc, failed_validation_doc_text, fault_envelope_layout, fault_envelope_text,
    fault_helper_layout, fault_helper_text, fault_reply_layout, fault_reply_layout_text,
    frames_class, frames_class_text, handler_panic_doc, handler_panic_doc_text,
    handlers_interface_layout, handlers_interface_layout_text, method_doc, method_doc_text,
    ok_value_layout, ok_value_text, one_way_arm_tail, one_way_arm_tail_text, one_way_handler,
    one_way_handler_text, one_way_method_layout, one_way_method_text, options_class,
    options_class_text, refusal_class_layout, refusal_class_text, reply_arm_tail,
    reply_arm_tail_text, reply_decode_layout, reply_decode_text, reply_frame_expr,
    reply_frame_text, reply_handler, reply_handler_text, reply_method_layout, reply_method_text,
    socket_interface, socket_interface_text, transport_class_layout, transport_class_layout_text,
    transport_close_stmt, transport_close_text, transport_failure_doc, transport_failure_doc_text,
    transport_header_stmt, transport_header_text, transport_heartbeat_stmt,
    transport_heartbeat_text, transport_notify_and_send_stmt, transport_notify_and_send_text,
    transport_on_frame_stmt, transport_on_frame_text, transport_request_stmt,
    transport_request_text, unit_success_block, unit_success_text, unknown_fault,
    unknown_fault_text, unknown_operation_doc, unknown_operation_doc_text, value_success_block,
    value_success_text,
};
use crate::rename_rule::{RenameRule, ascii_led, variant_renamed};
use crate::service::{
    OperationDef, OperationInputs, OperationOutcome, ServiceDef, fault_fields_name,
    fault_fields_text, is_reply, result_name, result_name_of,
};
use crate::text::{join, join_texts};
use vstd::prelude::*;

verus! {

// ---------------------------------------------------------------------------------------------
// What each piece reads as.
// ---------------------------------------------------------------------------------------------

/// The prefix every generated Kotlin function of the service carries: its name in `camelCase`.
pub open spec fn fn_prefix_text(named: Seq<char>) -> Seq<char> {
    variant_renamed(RenameRule::CamelCase, named)
}

/// Whether any operation of `ops` is one-way.
pub open spec fn has_one_way_op(ops: Seq<OperationDef>) -> bool {
    exists|i: int| 0 <= i < ops.len() && !is_reply(#[trigger] ops[i])
}

/// The reply operation's sealed result name (only read where the operation is a reply).
pub open spec fn result_text(named: Seq<char>, op: OperationDef) -> Seq<char> {
    result_name_of(named, op).unwrap()
}

/// The message's Kotlin type: the type the operation named, the one the macro declared for an
/// operation that named none, or `Unit` when there is neither.
pub open spec fn kt_message(st: KotlinView, op: OperationDef) -> (Seq<char>, KotlinView) {
    match op.inputs {
        OperationInputs::Named(declared) => kt_typename(st, declared.def),
        _ => match op.generated_message {
            Option::Some(g) => kt_typename(st, g.def),
            Option::None => ("Unit"@, st),
        },
    }
}

#[verifier::opaque]
pub open spec fn transport_text(named: Seq<char>) -> Seq<char> {
    transport_class_layout_text(
        transport_header_text(named),
        transport_request_text(named),
        transport_notify_and_send_text(named),
        transport_on_frame_text(),
        transport_heartbeat_text(named),
        transport_close_text(named),
    )
}

/// Answers a waiting request with the fault envelope around `fault_expr`.
#[verifier::opaque]
pub open spec fn fault_reply_text(named: Seq<char>, fault_expr: Seq<char>) -> Seq<char> {
    fault_reply_layout_text(
        reply_frame_text(
            named,
            "false"@,
            "error"@,
            fault_envelope_text(fault_fields_text(named), fault_expr),
        ),
    )
}

/// One client method, and what rendering its types did to the state.
#[verifier::opaque]
pub open spec fn client_method_text(
    st: KotlinView,
    named: Seq<char>,
    prefix: Seq<char>,
    op: OperationDef,
) -> (Seq<char>, KotlinView) {
    let wire = op.wire_name@;
    let call = op.ts_name@;
    let (req_ty, st1) = kt_message(st, op);
    let doc = method_doc_text(wire);
    match op.outcome {
        OperationOutcome::OneWay => (
            one_way_method_text(doc, call, req_ty, wire, named, prefix),
            st1,
        ),
        OperationOutcome::Reply { error, success } => {
            let result = result_text(named, op);
            let (success_block, st2) = if unit_type(success.def) {
                (unit_success_text(result), st1)
            } else {
                let (success_ty, after) = kt_typename(st1, success.def);
                (value_success_text(result, success_ty, prefix, wire), after)
            };
            let (error_ty, st3) = kt_typename(st2, error.def);
            let decode = reply_decode_text(
                success_block,
                result,
                fault_fields_text(named),
                prefix,
                wire,
                error_ty,
            );
            (reply_method_text(doc, call, req_ty, result, wire, prefix, decode), st3)
        },
    }
}

/// The first `n` client methods of `ops`, in order.
pub open spec fn client_methods(
    st: KotlinView,
    named: Seq<char>,
    prefix: Seq<char>,
    ops: Seq<OperationDef>,
    n: nat,
) -> (Seq<Seq<char>>, KotlinView)
    decreases n,
{
    if n == 0 || n > ops.len() {
        (Seq::empty(), st)
    } else {
        let (before, st1) = client_methods(st, named, prefix, ops, (n - 1) as nat);
        let (method, st2) = client_method_text(st1, named, prefix, ops[n - 1]);
        (before.push(method), st2)
    }
}

/// One member of the handlers interface.
#[verifier::opaque]
pub open spec fn handler_member_text(st: KotlinView, named: Seq<char>, op: OperationDef) -> (
    Seq<char>,
    KotlinView,
) {
    let (req_ty, st1) = kt_message(st, op);
    if is_reply(op) {
        (reply_handler_text(op.ts_name@, req_ty, result_text(named, op)), st1)
    } else {
        (one_way_handler_text(op.ts_name@, req_ty), st1)
    }
}

/// The first `n` handler members of `ops`, in order.
pub open spec fn handler_members(
    st: KotlinView,
    named: Seq<char>,
    ops: Seq<OperationDef>,
    n: nat,
) -> (Seq<Seq<char>>, KotlinView)
    decreases n,
{
    if n == 0 || n > ops.len() {
        (Seq::empty(), st)
    } else {
        let (before, st1) = handler_members(st, named, ops, (n - 1) as nat);
        let (member, st2) = handler_member_text(st1, named, ops[n - 1]);
        (before.push(member), st2)
    }
}

/// One dispatch arm: the payload decoded (or a failed-validation fault), the handler called (or a
/// handler-panic fault), and what it answered written back to a waiting request.
#[verifier::opaque]
pub open spec fn dispatch_arm_text(
    st: KotlinView,
    named: Seq<char>,
    prefix: Seq<char>,
    op: OperationDef,
) -> (Seq<char>, KotlinView) {
    let wire = op.wire_name@;
    let call = op.ts_name@;
    let (req_ty, st1) = kt_message(st, op);
    let fault = fault_reply_text(named, "fault"@);
    let head = arm_decode_text(wire, req_ty, prefix, fault);
    match op.outcome {
        OperationOutcome::OneWay => (
            head + one_way_arm_tail_text(
                call,
                prefix,
                wire,
                fault,
                reply_frame_text(named, "true"@, "value"@, "JsonNull"@),
            ),
            st1,
        ),
        OperationOutcome::Reply { error, success } => {
            let result = result_text(named, op);
            let (ok_value, st2) = if unit_type(success.def) {
                ("JsonNull"@, st1)
            } else {
                let (success_ty, after) = kt_typename(st1, success.def);
                (ok_value_text(success_ty), after)
            };
            let ok_frame = reply_frame_text(named, "true"@, "value"@, ok_value);
            let (error_ty, st3) = kt_typename(st2, error.def);
            let declared_frame = reply_frame_text(
                named,
                "false"@,
                "error"@,
                declared_value_text(error_ty),
            );
            let fault_frame = reply_frame_text(
                named,
                "false"@,
                "error"@,
                fault_envelope_text(fault_fields_text(named), "answered.fault"@),
            );
            (
                head + reply_arm_tail_text(
                    call,
                    prefix,
                    wire,
                    fault,
                    result,
                    ok_frame,
                    declared_frame,
                    fault_frame,
                ),
                st3,
            )
        },
    }
}

/// The first `n` dispatch arms of `ops`, in order.
pub open spec fn dispatch_arms(
    st: KotlinView,
    named: Seq<char>,
    prefix: Seq<char>,
    ops: Seq<OperationDef>,
    n: nat,
) -> (Seq<Seq<char>>, KotlinView)
    decreases n,
{
    if n == 0 || n > ops.len() {
        (Seq::empty(), st)
    } else {
        let (before, st1) = dispatch_arms(st, named, prefix, ops, (n - 1) as nat);
        let (arm, st2) = dispatch_arm_text(st1, named, prefix, ops[n - 1]);
        (before.push(arm), st2)
    }
}

/// The dispatcher around its arms.
#[verifier::opaque]
pub open spec fn dispatch_text(named: Seq<char>, prefix: Seq<char>, arms: Seq<char>) -> Seq<char> {
    dispatch_layout_text(
        prefix,
        named,
        fault_fields_text(named),
        arms,
        unknown_fault_text(prefix),
        fault_reply_text(named, "fault"@),
    )
}

/// The four fault helpers every method and every dispatch arm reaches for.
#[verifier::opaque]
pub open spec fn fault_helper_texts(named: Seq<char>, prefix: Seq<char>) -> Seq<Seq<char>> {
    let fields = fault_fields_text(named);
    seq![
        fault_helper_text(transport_failure_doc_text(named), prefix, "WsTransportFailure"@, fields, named, "TransportFailure"@),
        fault_helper_text(failed_validation_doc_text(named), prefix, "WsFailedValidation"@, fields, named, "FailedValidation"@),
        fault_helper_text(unknown_operation_doc_text(named), prefix, "WsUnknownOperation"@, fields, named, "UnknownOperation"@),
        fault_helper_text(handler_panic_doc_text(named), prefix, "WsHandlerPanic"@, fields, named, "HandlerPanic"@),
    ]
}

/// The pieces before the transport: the socket seam, the options, the frames record, and the ws
/// refusal when some operation is one-way.
#[verifier::opaque]
pub open spec fn opening_texts(named: Seq<char>, ops: Seq<OperationDef>) -> Seq<Seq<char>> {
    let head = seq![socket_interface_text(named), options_class_text(named), frames_class_text(named)];
    if has_one_way_op(ops) {
        head.push(refusal_class_text(named, fault_fields_text(named)))
    } else {
        head
    }
}

/// Everything the Kotlin `ws_rpc` client publishes for `service`, in order, and the state after
/// rendering every type it names.
pub open spec fn ws_client_texts(st: KotlinView, service: ServiceDef) -> (Seq<Seq<char>>, KotlinView) {
    let named = service.ident@;
    let prefix = fn_prefix_text(named);
    let ops = service.operations@;
    let (methods, st1) = client_methods(st, named, prefix, ops, ops.len());
    let (members, st2) = handler_members(st1, named, ops, ops.len());
    let (arms, st3) = dispatch_arms(st2, named, prefix, ops, ops.len());
    (
        opening_texts(named, ops) + seq![
            transport_text(named),
            client_class_layout_text(named, join(methods, "\n\n"@)),
            handlers_interface_layout_text(named, join(members, "\n"@)),
            attachment_class_text(named),
            attach_dispatcher_text(named, fault_fields_text(named), prefix),
            dispatch_text(named, prefix, join(arms, "\n"@)),
        ] + fault_helper_texts(named, prefix),
        st3,
    )
}

// ---------------------------------------------------------------------------------------------
// The emitter.
// ---------------------------------------------------------------------------------------------

/// Everything the Kotlin `ws_rpc` client publishes for `service`: the socket seam, the options,
/// the frames record, the ws refusal (only when some operation is one-way), the transport, the
/// client, the handlers interface, the attachment, `attach{Service}WsDispatcher`, the dispatcher,
/// and the four fault helpers.
#[verifier::spinoff_prover]
#[verifier::rlimit(40)]
pub fn emit(st: &mut KotlinState, service: &ServiceDef) -> (r: Vec<String>)
    requires
        ascii_led(service.ident@),
    ensures
        (r.deep_view(), final(st)@) == ws_client_texts(old(st)@, *service),
        r.len() == (if has_one_way_op(service.operations@) {
            14int
        } else {
            13int
        }),
{
    let named = service.ident.as_str();
    let fn_prefix = RenameRule::CamelCase.apply_to_variant(named);
    let prefix = fn_prefix.as_str();
    let fields = fault_fields_name(named);
    let mut published: Vec<String> = Vec::new();
    published.push(socket_interface(named));
    published.push(options_class(named));
    published.push(frames_class(named));
    if has_one_way(service) {
        published.push(refusal_class_layout(named, fields.as_str()));
    }
    let ghost opening = published.deep_view();
    assert(opening =~= opening_texts(named@, service.operations@)) by {
        reveal(opening_texts);
    }
    let transport = transport_class(named);
    let methods = client_method_texts(st, named, prefix, &service.operations);
    let client = client_class_layout(named, join_texts(&methods, "\n\n").as_str());
    let members = handler_member_texts(st, named, &service.operations);
    let handlers = handlers_interface_layout(named, join_texts(&members, "\n").as_str());
    let arms = dispatch_arm_texts(st, named, prefix, &service.operations);
    let unknown = unknown_fault(prefix);
    let unknown_reply = fault_reply_stmt(named, "fault");
    let dispatch = dispatch_layout(
        prefix,
        named,
        fields.as_str(),
        join_texts(&arms, "\n").as_str(),
        unknown.as_str(),
        unknown_reply.as_str(),
    );
    assert(dispatch@ == dispatch_text(named@, prefix@, join(arms.deep_view(), "\n"@))) by {
        reveal(dispatch_text);
    }
    published.push(transport);
    published.push(client);
    published.push(handlers);
    published.push(attachment_class(named));
    published.push(attach_dispatcher_layout(named, fields.as_str(), prefix));
    published.push(dispatch);
    push_fault_helpers(&mut published, named, prefix);
    assert(published.deep_view() =~= ws_client_texts(old(st)@, *service).0);
    assert(fault_helper_texts(named@, prefix@).len() == 4) by {
        reveal(fault_helper_texts);
    }
    assert(opening_texts(named@, service.operations@).len() == if has_one_way_op(
        service.operations@,
    ) {
        4int
    } else {
        3int
    }) by {
        reveal(opening_texts);
    }
    assert(published.deep_view().len() == opening_texts(named@, service.operations@).len() + 6
        + fault_helper_texts(named@, prefix@).len());
    assert(published.len() == published.deep_view().len());
    published
}

/// Whether any operation of `service` is one-way.
fn has_one_way(service: &ServiceDef) -> (r: bool)
    ensures
        r == has_one_way_op(service.operations@),
{
    let mut i: usize = 0;
    while i < service.operations.len()
        invariant
            i <= service.operations.len(),
            forall|j: int| 0 <= j < i ==> is_reply(#[trigger] service.operations@[j]),
        decreases service.operations.len() - i,
    {
        if service.operations[i].is_one_way() {
            return true;
        }
        i = i + 1;
    }
    false
}

fn transport_class(named: &str) -> (r: String)
    ensures
        r@ == transport_text(named@),
{
    reveal(transport_text);
    let header = transport_header_stmt(named);
    let request = transport_request_stmt(named);
    let notify_and_send = transport_notify_and_send_stmt(named);
    let on_frame = transport_on_frame_stmt();
    let heartbeat = transport_heartbeat_stmt(named);
    let close = transport_close_stmt(named);
    transport_class_layout(
        header.as_str(),
        request.as_str(),
        notify_and_send.as_str(),
        on_frame.as_str(),
        heartbeat.as_str(),
        close.as_str(),
    )
}

/// The message's Kotlin type: see [`kt_message`].
fn message_kotlin_typename(st: &mut KotlinState, operation: &OperationDef) -> (r: String)
    ensures
        (r@, final(st)@) == kt_message(old(st)@, *operation),
{
    match &operation.inputs {
        OperationInputs::Named(declared) => kotlin_typename(st, &declared.def),
        _ => match &operation.generated_message {
            Option::Some(g) => kotlin_typename(st, &g.def),
            Option::None => String::from_str("Unit"),
        },
    }
}

fn fault_reply_stmt(named: &str, fault_expr: &str) -> (r: String)
    ensures
        r@ == fault_reply_text(named@, fault_expr@),
{
    reveal(fault_reply_text);
    let fields = fault_fields_name(named);
    let envelope = fault_envelope_layout(fields.as_str(), fault_expr);
    let frame = reply_frame_expr(named, "false", "error", envelope.as_str());
    fault_reply_layout(frame.as_str())
}

fn client_method(st: &mut KotlinState, named: &str, prefix: &str, operation: &OperationDef) -> (r:
    String)
    ensures
        (r@, final(st)@) == client_method_text(old(st)@, named@, prefix@, *operation),
{
    reveal(client_method_text);
    let wire = operation.wire_name.as_str();
    let call = operation.ts_name.as_str();
    let req_ty = message_kotlin_typename(st, operation);
    let doc = method_doc(wire);
    match &operation.outcome {
        OperationOutcome::OneWay => one_way_method_layout(
            doc.as_str(),
            call,
            req_ty.as_str(),
            wire,
            named,
            prefix,
        ),
        OperationOutcome::Reply { error, success } => {
            let result = result_name(named, operation).unwrap();
            let success_block = if success.def.is_unit_type() {
                unit_success_block(result.as_str())
            } else {
                let success_ty = kotlin_typename(st, &success.def);
                value_success_block(result.as_str(), success_ty.as_str(), prefix, wire)
            };
            let error_ty = kotlin_typename(st, &error.def);
            let fields = fault_fields_name(named);
            let decode = reply_decode_layout(
                success_block.as_str(),
                result.as_str(),
                fields.as_str(),
                prefix,
                wire,
                error_ty.as_str(),
            );
            reply_method_layout(
                doc.as_str(),
                call,
                req_ty.as_str(),
                result.as_str(),
                wire,
                prefix,
                decode.as_str(),
            )
        },
    }
}

fn client_method_texts(
    st: &mut KotlinState,
    named: &str,
    prefix: &str,
    operations: &Vec<OperationDef>,
) -> (r: Vec<String>)
    ensures
        (r.deep_view(), final(st)@) == client_methods(
            old(st)@,
            named@,
            prefix@,
            operations@,
            operations.len() as nat,
        ),
{
    let mut r: Vec<String> = Vec::new();
    let mut i: usize = 0;
    while i < operations.len()
        invariant
            i <= operations.len(),
            (r.deep_view(), st@) == client_methods(old(st)@, named@, prefix@, operations@, i as nat),
        decreases operations.len() - i,
    {
        let method = client_method(st, named, prefix, &operations[i]);
        let ghost before = r.deep_view();
        r.push(method);
        assert(r.deep_view() =~= before.push(method@));
        i = i + 1;
    }
    r
}

fn handler_member(st: &mut KotlinState, named: &str, operation: &OperationDef) -> (r: String)
    ensures
        (r@, final(st)@) == handler_member_text(old(st)@, named@, *operation),
{
    reveal(handler_member_text);
    let call = operation.ts_name.as_str();
    let req_ty = message_kotlin_typename(st, operation);
    match result_name(named, operation) {
        Option::Some(result) => reply_handler(call, req_ty.as_str(), result.as_str()),
        Option::None => one_way_handler(call, req_ty.as_str()),
    }
}

fn handler_member_texts(st: &mut KotlinState, named: &str, operations: &Vec<OperationDef>) -> (r:
    Vec<String>)
    ensures
        (r.deep_view(), final(st)@) == handler_members(
            old(st)@,
            named@,
            operations@,
            operations.len() as nat,
        ),
{
    let mut r: Vec<String> = Vec::new();
    let mut i: usize = 0;
    while i < operations.len()
        invariant
            i <= operations.len(),
            (r.deep_view(), st@) == handler_members(old(st)@, named@, operations@, i as nat),
        decreases operations.len() - i,
    {
        let member = handler_member(st, named, &operations[i]);
        let ghost before = r.deep_view();
        r.push(member);
        assert(r.deep_view() =~= before.push(member@));
        i = i + 1;
    }
    r
}

fn dispatch_arm(st: &mut KotlinState, named: &str, prefix: &str, operation: &OperationDef) -> (r:
    String)
    ensures
        (r@, final(st)@) == dispatch_arm_text(old(st)@, named@, prefix@, *operation),
{
    let wire = operation.wire_name.as_str();
    let call = operation.ts_name.as_str();
    reveal(dispatch_arm_text);
    let req_ty = message_kotlin_typename(st, operation);
    let fault = fault_reply_stmt(named, "fault");
    let mut arm = arm_decode_layout(wire, req_ty.as_str(), prefix, fault.as_str());
    match &operation.outcome {
        OperationOutcome::OneWay => {
            let ack = reply_frame_expr(named, "true", "value", "JsonNull");
            let tail = one_way_arm_tail(call, prefix, wire, fault.as_str(), ack.as_str());
            arm.append(tail.as_str());
        },
        OperationOutcome::Reply { error, success } => {
            let result = result_name(named, operation).unwrap();
            let ok_value = if success.def.is_unit_type() {
                String::from_str("JsonNull")
            } else {
                let success_ty = kotlin_typename(st, &success.def);
                ok_value_layout(success_ty.as_str())
            };
            let ok_frame = reply_frame_expr(named, "true", "value", ok_value.as_str());
            let error_ty = kotlin_typename(st, &error.def);
            let declared_value = declared_value_layout(error_ty.as_str());
            let declared_frame = reply_frame_expr(named, "false", "error", declared_value.as_str());
            let fields = fault_fields_name(named);
            let envelope = fault_envelope_layout(fields.as_str(), "answered.fault");
            let fault_frame = reply_frame_expr(named, "false", "error", envelope.as_str());
            let tail = reply_arm_tail(
                call,
                prefix,
                wire,
                fault.as_str(),
                result.as_str(),
                ok_frame.as_str(),
                declared_frame.as_str(),
                fault_frame.as_str(),
            );
            arm.append(tail.as_str());
        },
    }
    arm
}

fn dispatch_arm_texts(
    st: &mut KotlinState,
    named: &str,
    prefix: &str,
    operations: &Vec<OperationDef>,
) -> (r: Vec<String>)
    ensures
        (r.deep_view(), final(st)@) == dispatch_arms(
            old(st)@,
            named@,
            prefix@,
            operations@,
            operations.len() as nat,
        ),
{
    let mut r: Vec<String> = Vec::new();
    let mut i: usize = 0;
    while i < operations.len()
        invariant
            i <= operations.len(),
            (r.deep_view(), st@) == dispatch_arms(old(st)@, named@, prefix@, operations@, i as nat),
        decreases operations.len() - i,
    {
        let arm = dispatch_arm(st, named, prefix, &operations[i]);
        let ghost before = r.deep_view();
        r.push(arm);
        assert(r.deep_view() =~= before.push(arm@));
        i = i + 1;
    }
    r
}

/// Appends the four fault helpers to `published`.
fn push_fault_helpers(published: &mut Vec<String>, named: &str, prefix: &str)
    ensures
        final(published).deep_view() == old(published).deep_view() + fault_helper_texts(
            named@,
            prefix@,
        ),
{
    reveal(fault_helper_texts);
    let ghost start = published.deep_view();
    let fields = fault_fields_name(named);
    let f = fields.as_str();
    let a = fault_helper_layout(
        transport_failure_doc(named).as_str(),
        prefix,
        "WsTransportFailure",
        f,
        named,
        "TransportFailure",
    );
    let b = fault_helper_layout(
        failed_validation_doc(named).as_str(),
        prefix,
        "WsFailedValidation",
        f,
        named,
        "FailedValidation",
    );
    let c = fault_helper_layout(
        unknown_operation_doc(named).as_str(),
        prefix,
        "WsUnknownOperation",
        f,
        named,
        "UnknownOperation",
    );
    let d = fault_helper_layout(
        handler_panic_doc(named).as_str(),
        prefix,
        "WsHandlerPanic",
        f,
        named,
        "HandlerPanic",
    );
    published.push(a);
    published.push(b);
    published.push(c);
    published.push(d);
    assert(published.deep_view() =~= start + seq![a@, b@, c@, d@]);
}

// ---------------------------------------------------------------------------------------------
// What holds of every service.
// ---------------------------------------------------------------------------------------------

/// The ws refusal is published exactly when some operation is one-way, and then right after the
/// frames record.
pub proof fn lemma_refusal_iff_one_way(named: Seq<char>, ops: Seq<OperationDef>)
    ensures
        opening_texts(named, ops).len() == 4 <==> has_one_way_op(ops),
        has_one_way_op(ops) ==> opening_texts(named, ops)[3] == refusal_class_text(
            named,
            fault_fields_text(named),
        ),
        !has_one_way_op(ops) ==> opening_texts(named, ops).len() == 3,
{
    reveal(opening_texts);
}

proof fn lemma_client_methods_len(
    st: KotlinView,
    named: Seq<char>,
    prefix: Seq<char>,
    ops: Seq<OperationDef>,
    n: nat,
)
    requires
        n <= ops.len(),
    ensures
        client_methods(st, named, prefix, ops, n).0.len() == n,
        only_queues(st, client_methods(st, named, prefix, ops, n).1),
    decreases n,
{
    if n == 0 {
        assert(st.aux.subrange(0, st.aux.len() as int) =~= st.aux);
    } else {
        lemma_client_methods_len(st, named, prefix, ops, (n - 1) as nat);
        let st1 = client_methods(st, named, prefix, ops, (n - 1) as nat).1;
        lemma_client_method_only_queues(st1, named, prefix, ops[n - 1]);
        lemma_only_queues_trans(st, st1, client_method_text(st1, named, prefix, ops[n - 1]).1);
    }
}

proof fn lemma_handler_members_len(st: KotlinView, named: Seq<char>, ops: Seq<OperationDef>, n: nat)
    requires
        n <= ops.len(),
    ensures
        handler_members(st, named, ops, n).0.len() == n,
        only_queues(st, handler_members(st, named, ops, n).1),
    decreases n,
{
    if n == 0 {
        assert(st.aux.subrange(0, st.aux.len() as int) =~= st.aux);
    } else {
        lemma_handler_members_len(st, named, ops, (n - 1) as nat);
        let st1 = handler_members(st, named, ops, (n - 1) as nat).1;
        reveal(handler_member_text);
        lemma_message_only_queues(st1, ops[n - 1]);
        lemma_only_queues_trans(st, st1, handler_member_text(st1, named, ops[n - 1]).1);
    }
}

proof fn lemma_dispatch_arms_len(
    st: KotlinView,
    named: Seq<char>,
    prefix: Seq<char>,
    ops: Seq<OperationDef>,
    n: nat,
)
    requires
        n <= ops.len(),
    ensures
        dispatch_arms(st, named, prefix, ops, n).0.len() == n,
        only_queues(st, dispatch_arms(st, named, prefix, ops, n).1),
    decreases n,
{
    if n == 0 {
        assert(st.aux.subrange(0, st.aux.len() as int) =~= st.aux);
    } else {
        lemma_dispatch_arms_len(st, named, prefix, ops, (n - 1) as nat);
        let st1 = dispatch_arms(st, named, prefix, ops, (n - 1) as nat).1;
        lemma_dispatch_arm_only_queues(st1, named, prefix, ops[n - 1]);
        lemma_only_queues_trans(st, st1, dispatch_arm_text(st1, named, prefix, ops[n - 1]).1);
    }
}

proof fn lemma_message_only_queues(st: KotlinView, op: OperationDef)
    ensures
        only_queues(st, kt_message(st, op).1),
{
    match op.inputs {
        OperationInputs::Named(declared) => lemma_rendering_only_queues(st, declared.def),
        _ => match op.generated_message {
            Option::Some(g) => lemma_rendering_only_queues(st, g.def),
            Option::None => {
                assert(st.aux.subrange(0, st.aux.len() as int) =~= st.aux);
            },
        },
    }
}

proof fn lemma_client_method_only_queues(
    st: KotlinView,
    named: Seq<char>,
    prefix: Seq<char>,
    op: OperationDef,
)
    ensures
        only_queues(st, client_method_text(st, named, prefix, op).1),
{
    reveal(client_method_text);
    let st1 = kt_message(st, op).1;
    lemma_message_only_queues(st, op);
    match op.outcome {
        OperationOutcome::OneWay => {},
        OperationOutcome::Reply { error, success } => {
            let st2 = if unit_type(success.def) {
                st1
            } else {
                kt_typename(st1, success.def).1
            };
            if !unit_type(success.def) {
                lemma_rendering_only_queues(st1, success.def);
                lemma_only_queues_trans(st, st1, st2);
            }
            lemma_rendering_only_queues(st2, error.def);
            lemma_only_queues_trans(st, st2, kt_typename(st2, error.def).1);
        },
    }
}

proof fn lemma_dispatch_arm_only_queues(
    st: KotlinView,
    named: Seq<char>,
    prefix: Seq<char>,
    op: OperationDef,
)
    ensures
        only_queues(st, dispatch_arm_text(st, named, prefix, op).1),
{
    reveal(dispatch_arm_text);
    let st1 = kt_message(st, op).1;
    lemma_message_only_queues(st, op);
    match op.outcome {
        OperationOutcome::OneWay => {},
        OperationOutcome::Reply { error, success } => {
            let st2 = if unit_type(success.def) {
                st1
            } else {
                kt_typename(st1, success.def).1
            };
            if !unit_type(success.def) {
                lemma_rendering_only_queues(st1, success.def);
                lemma_only_queues_trans(st, st1, st2);
            }
            lemma_rendering_only_queues(st2, error.def);
            lemma_only_queues_trans(st, st2, kt_typename(st2, error.def).1);
        },
    }
}

/// Every operation gets exactly one client method, one handler member and one dispatch arm, and
/// writing the whole client never changes the Kotlin names registered so far: it only queues the
/// wrappers of the tuples its operations name.
pub proof fn lemma_one_piece_per_operation(st: KotlinView, service: ServiceDef)
    ensures
        ({
            let named = service.ident@;
            let prefix = fn_prefix_text(named);
            let ops = service.operations@;
            let (methods, st1) = client_methods(st, named, prefix, ops, ops.len());
            let (members, st2) = handler_members(st1, named, ops, ops.len());
            let (arms, st3) = dispatch_arms(st2, named, prefix, ops, ops.len());
            &&& methods.len() == ops.len()
            &&& members.len() == ops.len()
            &&& arms.len() == ops.len()
        }),
        only_queues(st, ws_client_texts(st, service).1),
{
    let named = service.ident@;
    let prefix = fn_prefix_text(named);
    let ops = service.operations@;
    let st1 = client_methods(st, named, prefix, ops, ops.len()).1;
    let st2 = handler_members(st1, named, ops, ops.len()).1;
    lemma_client_methods_len(st, named, prefix, ops, ops.len());
    lemma_handler_members_len(st1, named, ops, ops.len());
    lemma_dispatch_arms_len(st2, named, prefix, ops, ops.len());
    lemma_only_queues_trans(st, st1, st2);
    lemma_only_queues_trans(st, st2, dispatch_arms(st2, named, prefix, ops, ops.len()).1);
}

/// The message's Kotlin type is read the same way wherever it is written — the client method,
/// the handler member and the dispatch arm — whenever the states register the same names (which
/// writing never changes) and the message names no tuple.
pub proof fn lemma_message_named_alike(st1: KotlinView, st2: KotlinView, op: OperationDef)
    requires
        st1.names == st2.names,
        match op.inputs {
            OperationInputs::Named(declared) => tuple_free(declared.def),
            _ => match op.generated_message {
                Option::Some(g) => tuple_free(g.def),
                Option::None => true,
            },
        },
    ensures
        kt_message(st1, op).0 == kt_message(st2, op).0,
{
    match op.inputs {
        OperationInputs::Named(declared) => lemma_tuple_free_rendering_is_stable(st1, st2, declared.def),
        _ => match op.generated_message {
            Option::Some(g) => lemma_tuple_free_rendering_is_stable(st1, st2, g.def),
            Option::None => {},
        },
    }
}

proof fn lemma_opening_heads(named: Seq<char>)
    ensures
        socket_interface_text(named).len() > 11 && socket_interface_text(named)[4] == 'T',
        options_class_text(named).len() > 11 && options_class_text(named)[4] == 'H',
        frames_class_text(named).len() > 11 && frames_class_text(named)[4] == 'T',
        refusal_class_text(named, fault_fields_text(named)).len() > 11,
        refusal_class_text(named, fault_fields_text(named))[4] == 'W',
        refusal_class_text(named, fault_fields_text(named))[11] == 'o',
{
    reveal_strlit("/// The seam a `");
    reveal_strlit("/// How often a `");
    reveal_strlit("/// The structural seam a `");
    reveal_strlit("/// What a one-way `");
}

proof fn lemma_head_kept(a: Seq<char>, b: Seq<char>, k: int)
    requires
        0 <= k <= a.len(),
    ensures
        (a + b).len() >= k,
        forall|i: int| 0 <= i < k ==> #[trigger] (a + b)[i] == a[i],
{
}

#[verifier::rlimit(60)]
proof fn lemma_transport_header_head(named: Seq<char>)
    ensures
        transport_header_text(named).len() > named.len() + 9,
        transport_header_text(named)[4] == 'A',
        transport_header_text(named)[5] == ' ',
        transport_header_text(named)[named.len() + 9int] == '`',
{
    reveal_strlit("/// A `");
    reveal_strlit("` `ws_rpc` transport that owns `socket` under the preferred ownership\n");
    let first = "/// A `"@ + named + "` `ws_rpc` transport that owns `socket` under the preferred ownership\n"@;
    assert(first[named.len() + 9int] == '`');
}

proof fn lemma_transport_head(named: Seq<char>)
    ensures
        transport_text(named).len() > named.len() + 9,
        transport_text(named)[4] == 'A',
        transport_text(named)[5] == ' ',
        transport_text(named)[named.len() + 9int] == '`',
{
    reveal(transport_text);
    let h = transport_header_text(named);
    lemma_transport_header_head(named);
    let k: int = named.len() + 10int;
    let t1 = h + transport_request_text(named);
    lemma_head_kept(h, transport_request_text(named), k);
    let t2 = t1 + transport_notify_and_send_text(named);
    lemma_head_kept(t1, transport_notify_and_send_text(named), k);
    let t3 = t2 + transport_on_frame_text();
    lemma_head_kept(t2, transport_on_frame_text(), k);
    let t4 = t3 + transport_heartbeat_text(named);
    lemma_head_kept(t3, transport_heartbeat_text(named), k);
    let t5 = t4 + transport_close_text(named);
    lemma_head_kept(t4, transport_close_text(named), k);
    let t6 = t5 + "\n"@;
    lemma_head_kept(t5, "\n"@, k);
    let t7 = t6 + "}"@;
    lemma_head_kept(t6, "}"@, k);
    assert(transport_text(named) == t7);
}

proof fn lemma_middle_heads(named: Seq<char>, prefix: Seq<char>, methods: Seq<char>, members: Seq<char>, arms: Seq<char>)
    ensures
        client_class_layout_text(named, methods).len() > named.len() + 9,
        client_class_layout_text(named, methods)[4] == 'A',
        client_class_layout_text(named, methods)[5] == ' ',
        client_class_layout_text(named, methods)[named.len() + 9int] == 'c',
        handlers_interface_layout_text(named, members).len() > 11,
        handlers_interface_layout_text(named, members)[4] == 'W',
        handlers_interface_layout_text(named, members)[11] == '`',
        attachment_class_text(named).len() > 11 && attachment_class_text(named)[4] == 'O',
        attach_dispatcher_text(named, fault_fields_text(named), prefix).len() > 11,
        attach_dispatcher_text(named, fault_fields_text(named), prefix)[4] == 'A',
        attach_dispatcher_text(named, fault_fields_text(named), prefix)[5] == 't',
        dispatch_text(named, prefix, arms).len() > 11 && dispatch_text(named, prefix, arms)[4] == 'a',
{
    reveal(dispatch_text);
    reveal_strlit("/// A `");
    reveal_strlit("` caller over `ws_rpc`.\n");
    reveal_strlit("/// What a `");
    reveal_strlit("/// One socket's `");
    reveal_strlit("/// Attaches `handlers` to `frames`, dispatching every inbound `");
    reveal_strlit("private suspend fun ");
    let first = "/// A `"@ + named + "` caller over `ws_rpc`.\n"@;
    assert(first[named.len() + 9int] == 'c');
}

#[verifier::rlimit(100)]
proof fn lemma_helper_heads(named: Seq<char>, prefix: Seq<char>)
    ensures
        fault_helper_texts(named, prefix).len() == 4,
        forall|i: int|
            0 <= i < 4 ==> (#[trigger] fault_helper_texts(named, prefix)[i]).len() > 11
                && fault_helper_texts(named, prefix)[i][4] == 'T',
{
    reveal(fault_helper_texts);
    reveal_strlit("/// ");
    reveal_strlit("The fault a `");
}

/// What the Kotlin `ws_rpc` client publishes, item by item: the ws refusal is published — as the
/// fourth item — exactly when some operation is one-way, and no other item is it; exactly one item
/// is the transport class, the tenth from the end; and the last four are the transport-failure,
/// failed-validation, unknown-operation and handler-panic helpers, in that order.
#[verifier::rlimit(80)]
pub proof fn lemma_ws_client_items(st: KotlinView, service: ServiceDef)
    ensures
        ({
            let named = service.ident@;
            let prefix = fn_prefix_text(named);
            let texts = ws_client_texts(st, service).0;
            let refusal = refusal_class_text(named, fault_fields_text(named));
            let n = texts.len() as int;
            &&& n == if has_one_way_op(service.operations@) {
                14int
            } else {
                13int
            }
            &&& has_one_way_op(service.operations@) ==> texts[3] == refusal
            &&& (exists|i: int| 0 <= i < n && texts[i] == refusal) <==> has_one_way_op(service.operations@)
            &&& texts[n - 10] == transport_text(named)
            &&& forall|i: int| 0 <= i < n && #[trigger] texts[i] == transport_text(named) ==> i == n - 10
            &&& texts.subrange(n - 4, n as int) == fault_helper_texts(named, prefix)
        }),
{
    let named = service.ident@;
    let prefix = fn_prefix_text(named);
    let ops = service.operations@;
    let (methods, st1) = client_methods(st, named, prefix, ops, ops.len());
    let (members, st2) = handler_members(st1, named, ops, ops.len());
    let (arms, st3) = dispatch_arms(st2, named, prefix, ops, ops.len());
    let texts = ws_client_texts(st, service).0;
    let refusal = refusal_class_text(named, fault_fields_text(named));
    let opening = opening_texts(named, ops);
    let middle = seq![
        transport_text(named),
        client_class_layout_text(named, join(methods, "\n\n"@)),
        handlers_interface_layout_text(named, join(members, "\n"@)),
        attachment_class_text(named),
        attach_dispatcher_text(named, fault_fields_text(named), prefix),
        dispatch_text(named, prefix, join(arms, "\n"@)),
    ];
    let helpers = fault_helper_texts(named, prefix);
    assert(texts == opening + middle + helpers);
    lemma_refusal_iff_one_way(named, ops);
    lemma_opening_heads(named);
    lemma_transport_head(named);
    lemma_middle_heads(named, prefix, join(methods, "\n\n"@), join(members, "\n"@), join(arms, "\n"@));
    lemma_helper_heads(named, prefix);
    reveal(opening_texts);
    let n = texts.len() as int;
    let k = opening.len() as int;
    assert(n == k + 10);
    assert forall|i: int| 0 <= i < n implies (texts[i] == refusal <==> (has_one_way_op(ops) && i == 3))
        && (texts[i] == transport_text(named) <==> i == k) by {
        if i < k {
            assert(texts[i] == opening[i]);
        } else if i < k + 6 {
            assert(texts[i] == middle[i - k]);
        } else {
            assert(texts[i] == helpers[i - k - 6]);
        }
    }
    assert(texts.subrange(n - 4, n as int) =~= helpers);
    if has_one_way_op(ops) {
        assert(texts[3] == refusal);
    }
}

proof fn lemma_refusal_declares_class(named: Seq<char>, fields: Seq<char>)
    ensures
        contains_text(refusal_class_text(named, fields), "class "@ + named + "WsRefusal("@),
{
    reveal_strlit("WsRefusal(val fault: ");
    reveal_strlit("WsRefusal(");
    reveal_strlit("class ");
    let t = "class "@ + named + "WsRefusal("@;
    let q = "/// What a one-way `"@ + named + "` `ws_rpc` method throws when it cannot deliver its `notify`\n"@ + "/// frame. A one-way operation declares no error, so there is nothing else to throw.\n"@ + "class "@ + named + "WsRefusal(val fault: "@;
    let i: int = q.len() - ("WsRefusal(val fault: "@.len() + named.len() + "class "@.len());
    assert(q.subrange(i, i + t.len()) =~= t);
    lemma_contains_at(q, t, i);
    lemma_contains_in_prefix(q, fields, t);
    let q = q + fields;
    lemma_contains_in_prefix(q, ") : Exception(fault.detail)"@, t);
    let q = q + ") : Exception(fault.detail)"@;
    assert(q == refusal_class_text(named, fields));
}

proof fn lemma_transport_header_declares_class(named: Seq<char>)
    ensures
        contains_text(transport_header_text(named), "class "@ + named + "WsTransport("@),
{
    reveal_strlit("WsTransport(\n");
    reveal_strlit("WsTransport(");
    reveal_strlit("class ");
    let t = "class "@ + named + "WsTransport("@;
    let q = "/// A `"@ + named + "` `ws_rpc` transport that owns `socket` under the preferred ownership\n"@ + "/// shape: correlates a `request` to its reply through a `CompletableDeferred`, answers\n"@ + "/// an inbound ping with one pong, and runs its own heartbeat on a scope it owns and\n"@ + "/// hands out through `frames` — closing this transport cancels that scope, and with it\n"@ + "/// every dispatcher reading `frames`, shared ones included.\n"@ + "///\n"@ + "/// `request` runs on its caller's coroutine, `onFrame` on whatever thread the socket\n"@ + "/// delivers on, and the heartbeat and `close` on the transport's own scope — so every\n"@ + "/// read and write of `pending`, `nextId` and `pongJob` is guarded by `synchronized(this)`,\n"@ + "/// a call to the socket or a pending deferred never made while holding it.\n"@ + "class "@ + named + "WsTransport(\n"@;
    let i: int = q.len() - ("WsTransport(\n"@.len() + named.len() + "class "@.len());
    assert(q.subrange(i, i + t.len()) =~= t);
    lemma_contains_at(q, t, i);
    lemma_contains_in_prefix(q, "  private val socket: "@, t);
    let q = q + "  private val socket: "@;
    lemma_contains_in_prefix(q, named, t);
    let q = q + named;
    lemma_contains_in_prefix(q, "WsSocket,\n"@, t);
    let q = q + "WsSocket,\n"@;
    lemma_contains_in_prefix(q, "  private val options: "@, t);
    let q = q + "  private val options: "@;
    lemma_contains_in_prefix(q, named, t);
    let q = q + named;
    lemma_contains_in_prefix(q, "WsOptions = "@, t);
    let q = q + "WsOptions = "@;
    lemma_contains_in_prefix(q, named, t);
    let q = q + named;
    lemma_contains_in_prefix(q, "WsOptions(),\n"@, t);
    let q = q + "WsOptions(),\n"@;
    lemma_contains_in_prefix(q, ") {\n"@, t);
    let q = q + ") {\n"@;
    lemma_contains_in_prefix(q, "  private val scope = CoroutineScope(SupervisorJob() + Dispatchers.Default)\n"@, t);
    let q = q + "  private val scope = CoroutineScope(SupervisorJob() + Dispatchers.Default)\n"@;
    lemma_contains_in_prefix(q, "  private val pending = mutableMapOf<String, CompletableDeferred<JsonObject?>>()\n"@, t);
    let q = q + "  private val pending = mutableMapOf<String, CompletableDeferred<JsonObject?>>()\n"@;
    lemma_contains_in_prefix(q, "  private val uncorrelated = MutableSharedFlow<String>(extraBufferCapacity = 64)\n"@, t);
    let q = q + "  private val uncorrelated = MutableSharedFlow<String>(extraBufferCapacity = 64)\n"@;
    lemma_contains_in_prefix(q, "  private var nextId = 1\n"@, t);
    let q = q + "  private var nextId = 1\n"@;
    lemma_contains_in_prefix(q, "  private var pongJob: Job? = null\n"@, t);
    let q = q + "  private var pongJob: Job? = null\n"@;
    lemma_contains_in_prefix(q, "  private var closed = false\n"@, t);
    let q = q + "  private var closed = false\n"@;
    lemma_contains_in_prefix(q, "\n"@, t);
    let q = q + "\n"@;
    lemma_contains_in_prefix(q, "  init {\n"@, t);
    let q = q + "  init {\n"@;
    lemma_contains_in_prefix(q, "    socket.onMessage = { text -> onFrame(text) }\n"@, t);
    let q = q + "    socket.onMessage = { text -> onFrame(text) }\n"@;
    lemma_contains_in_prefix(q, "    socket.onClose = { close() }\n"@, t);
    let q = q + "    socket.onClose = { close() }\n"@;
    lemma_contains_in_prefix(q, "    scheduleHeartbeat()\n"@, t);
    let q = q + "    scheduleHeartbeat()\n"@;
    lemma_contains_in_prefix(q, "  }\n"@, t);
    let q = q + "  }\n"@;
    lemma_contains_in_prefix(q, "\n"@, t);
    let q = q + "\n"@;
    lemma_contains_in_prefix(q, "  /// The structural seam an attachment dispatches over. Every `"@, t);
    let q = q + "  /// The structural seam an attachment dispatches over. Every `"@;
    lemma_contains_in_prefix(q, named, t);
    let q = q + named;
    lemma_contains_in_prefix(q, "WsTransport`\n"@, t);
    let q = q + "WsTransport`\n"@;
    lemma_contains_in_prefix(q, "  /// exposes the same shape, so an attachment for any service sharing this socket reaches\n"@, t);
    let q = q + "  /// exposes the same shape, so an attachment for any service sharing this socket reaches\n"@;
    lemma_contains_in_prefix(q, "  /// it here rather than through a transport type of its own.\n"@, t);
    let q = q + "  /// it here rather than through a transport type of its own.\n"@;
    lemma_contains_in_prefix(q, "  val frames: "@, t);
    let q = q + "  val frames: "@;
    lemma_contains_in_prefix(q, named, t);
    let q = q + named;
    lemma_contains_in_prefix(q, "WsFrames\n"@, t);
    let q = q + "WsFrames\n"@;
    lemma_contains_in_prefix(q, "    get() = "@, t);
    let q = q + "    get() = "@;
    lemma_contains_in_prefix(q, named, t);
    let q = q + named;
    lemma_contains_in_prefix(q, "WsFrames(uncorrelated.asSharedFlow(), socket::send, scope)\n"@, t);
    let q = q + "WsFrames(uncorrelated.asSharedFlow(), socket::send, scope)\n"@;
    lemma_contains_in_prefix(q, "\n"@, t);
    let q = q + "\n"@;
    lemma_contains_in_prefix(q, "  "@, t);
    let q = q + "  "@;
    assert(q == transport_header_text(named));
}

proof fn lemma_fault_helper_declares_fun(
    doc: Seq<char>,
    fn_prefix: Seq<char>,
    suffix: Seq<char>,
    fields: Seq<char>,
    named: Seq<char>,
    kind: Seq<char>,
)
    ensures
        contains_text(
            fault_helper_text(doc, fn_prefix, suffix, fields, named, kind),
            "private fun "@ + fn_prefix + suffix + "(operation: String, detail: String): "@,
        ),
{
    let t = "private fun "@ + fn_prefix + suffix + "(operation: String, detail: String): "@;
    let q = "/// "@ + doc + "\n"@ + "private fun "@ + fn_prefix + suffix + "(operation: String, detail: String): "@;
    let i: int = q.len() - t.len();
    assert(q.subrange(i, i + t.len()) =~= t);
    lemma_contains_at(q, t, i);
    lemma_contains_in_prefix(q, fields, t);
    let q = q + fields;
    lemma_contains_in_prefix(q, " = "@, t);
    let q = q + " = "@;
    lemma_contains_in_prefix(q, fields, t);
    let q = q + fields;
    lemma_contains_in_prefix(q, "(\n"@, t);
    let q = q + "(\n"@;
    lemma_contains_in_prefix(q, "  detail = detail,\n"@, t);
    let q = q + "  detail = detail,\n"@;
    lemma_contains_in_prefix(q, "  kind = "@, t);
    let q = q + "  kind = "@;
    lemma_contains_in_prefix(q, named, t);
    let q = q + named;
    lemma_contains_in_prefix(q, "FaultKind."@, t);
    let q = q + "FaultKind."@;
    lemma_contains_in_prefix(q, kind, t);
    let q = q + kind;
    lemma_contains_in_prefix(q, ",\n"@, t);
    let q = q + ",\n"@;
    lemma_contains_in_prefix(q, "  operation = operation,\n"@, t);
    let q = q + "  operation = operation,\n"@;
    lemma_contains_in_prefix(q, ")"@, t);
    let q = q + ")"@;
    assert(q == fault_helper_text(doc, fn_prefix, suffix, fields, named, kind));
}

/// What the Kotlin `ws_rpc` client's items declare: with a one-way operation, the fourth item
/// declares `class {Service}WsRefusal(`; the tenth item from the end declares
/// `class {Service}WsTransport(`; and the last four declare, in order,
/// `private fun {prefix}WsTransportFailure(…)`, `…WsFailedValidation(…)`,
/// `…WsUnknownOperation(…)` and `…WsHandlerPanic(…)`. (No other item *is* the refusal or the
/// transport: see [`lemma_ws_client_items`].)
pub proof fn lemma_ws_client_item_contents(st: KotlinView, service: ServiceDef)
    ensures
        ({
            let named = service.ident@;
            let prefix = fn_prefix_text(named);
            let texts = ws_client_texts(st, service).0;
            let n = texts.len() as int;
            let helper = |suffix: Seq<char>|
                "private fun "@ + prefix + suffix + "(operation: String, detail: String): "@;
            &&& has_one_way_op(service.operations@) ==> contains_text(
                texts[3],
                "class "@ + named + "WsRefusal("@,
            )
            &&& contains_text(texts[n - 10], "class "@ + named + "WsTransport("@)
            &&& contains_text(texts[n - 4], helper("WsTransportFailure"@))
            &&& contains_text(texts[n - 3], helper("WsFailedValidation"@))
            &&& contains_text(texts[n - 2], helper("WsUnknownOperation"@))
            &&& contains_text(texts[n - 1], helper("WsHandlerPanic"@))
        }),
{
    let named = service.ident@;
    let prefix = fn_prefix_text(named);
    let texts = ws_client_texts(st, service).0;
    let n = texts.len() as int;
    lemma_ws_client_items(st, service);
    lemma_refusal_declares_class(named, fault_fields_text(named));
    let t = "class "@ + named + "WsTransport("@;
    lemma_transport_header_declares_class(named);
    reveal(transport_text);
    let q = transport_header_text(named);
    lemma_contains_in_prefix(q, transport_request_text(named), t);
    let q = q + transport_request_text(named);
    lemma_contains_in_prefix(q, transport_notify_and_send_text(named), t);
    let q = q + transport_notify_and_send_text(named);
    lemma_contains_in_prefix(q, transport_on_frame_text(), t);
    let q = q + transport_on_frame_text();
    lemma_contains_in_prefix(q, transport_heartbeat_text(named), t);
    let q = q + transport_heartbeat_text(named);
    lemma_contains_in_prefix(q, transport_close_text(named), t);
    let q = q + transport_close_text(named);
    lemma_contains_in_prefix(q, "\n"@, t);
    let q = q + "\n"@;
    lemma_contains_in_prefix(q, "}"@, t);
    let q = q + "}"@;
    assert(q == transport_text(named));
    reveal(fault_helper_texts);
    let fields = fault_fields_text(named);
    lemma_fault_helper_declares_fun(transport_failure_doc_text(named), prefix, "WsTransportFailure"@, fields, named, "TransportFailure"@);
    lemma_fault_helper_declares_fun(failed_validation_doc_text(named), prefix, "WsFailedValidation"@, fields, named, "FailedValidation"@);
    lemma_fault_helper_declares_fun(unknown_operation_doc_text(named), prefix, "WsUnknownOperation"@, fields, named, "UnknownOperation"@);
    lemma_fault_helper_declares_fun(handler_panic_doc_text(named), prefix, "WsHandlerPanic"@, fields, named, "HandlerPanic"@);
    let helpers = fault_helper_texts(named, prefix);
    assert(texts[n - 4] == texts.subrange(n - 4, n)[0]);
    assert(texts[n - 3] == texts.subrange(n - 4, n)[1]);
    assert(texts[n - 2] == texts.subrange(n - 4, n)[2]);
    assert(texts[n - 1] == texts.subrange(n - 4, n)[3]);
}

proof fn lemma_reply_tail_holds_ok_arm(call: Seq<char>, fn_prefix: Seq<char>, wire: Seq<char>, panic_fault: Seq<char>, result: Seq<char>, ok_frame: Seq<char>, declared_frame: Seq<char>, fault_frame: Seq<char>)
    ensures
        contains_text(reply_arm_tail_text(call, fn_prefix, wire, panic_fault, result, ok_frame, declared_frame, fault_frame), "          is "@ + result + ".Ok -> send("@ + ok_frame),
{
    reveal_strlit("          is ");
    reveal_strlit("        handlers.");
    reveal_strlit("        onFault(fault)\n");
    reveal_strlit("        return\n");
    reveal_strlit("        val fault = ");
    reveal_strlit("        when (answered) {\n");
    reveal_strlit("        }\n");
    reveal_strlit("      if (id != null) {\n");
    reveal_strlit("      val answered = try {\n");
    reveal_strlit("      } catch (unexpected: Throwable) {\n");
    reveal_strlit("      }\n");
    reveal_strlit("    }\n");
    reveal_strlit("(decoded)\n");
    reveal_strlit(")\n");
    reveal_strlit(".Declared -> send(");
    reveal_strlit(".Fault -> send(");
    reveal_strlit(".Ok -> send(");
    reveal_strlit("WsHandlerPanic(\"");
    reveal_strlit("\", unexpected.toString())\n");
    let t = "          is "@ + result + ".Ok -> send("@ + ok_frame;
    let q0 = "      val answered = try {\n"@ + "        handlers."@ + call + "(decoded)\n"@ + "      } catch (unexpected: Throwable) {\n"@ + "        val fault = "@ + fn_prefix + "WsHandlerPanic(\""@ + wire + "\", unexpected.toString())\n"@ + "        onFault(fault)\n"@ + panic_fault + "        return\n"@ + "      }\n"@ + "      if (id != null) {\n"@ + "        when (answered) {\n"@;
    let q = q0 + "          is "@ + result + ".Ok -> send("@ + ok_frame;
    assert(q.subrange(q0.len() as int, q0.len() as int + t.len()) =~= t);
    lemma_contains_at(q, t, q0.len() as int);
    lemma_contains_in_prefix(q, ")\n"@, t);
    let q = q + ")\n"@;
    lemma_contains_in_prefix(q, "          is "@, t);
    let q = q + "          is "@;
    lemma_contains_in_prefix(q, result, t);
    let q = q + result;
    lemma_contains_in_prefix(q, ".Declared -> send("@, t);
    let q = q + ".Declared -> send("@;
    lemma_contains_in_prefix(q, declared_frame, t);
    let q = q + declared_frame;
    lemma_contains_in_prefix(q, ")\n"@, t);
    let q = q + ")\n"@;
    lemma_contains_in_prefix(q, "          is "@, t);
    let q = q + "          is "@;
    lemma_contains_in_prefix(q, result, t);
    let q = q + result;
    lemma_contains_in_prefix(q, ".Fault -> send("@, t);
    let q = q + ".Fault -> send("@;
    lemma_contains_in_prefix(q, fault_frame, t);
    let q = q + fault_frame;
    lemma_contains_in_prefix(q, ")\n"@, t);
    let q = q + ")\n"@;
    lemma_contains_in_prefix(q, "        }\n"@, t);
    let q = q + "        }\n"@;
    lemma_contains_in_prefix(q, "      }\n"@, t);
    let q = q + "      }\n"@;
    lemma_contains_in_prefix(q, "    }\n"@, t);
    let q = q + "    }\n"@;
    assert(q == reply_arm_tail_text(call, fn_prefix, wire, panic_fault, result, ok_frame, declared_frame, fault_frame));
}

proof fn lemma_reply_tail_holds_declared_arm(call: Seq<char>, fn_prefix: Seq<char>, wire: Seq<char>, panic_fault: Seq<char>, result: Seq<char>, ok_frame: Seq<char>, declared_frame: Seq<char>, fault_frame: Seq<char>)
    ensures
        contains_text(reply_arm_tail_text(call, fn_prefix, wire, panic_fault, result, ok_frame, declared_frame, fault_frame), "          is "@ + result + ".Declared -> send("@ + declared_frame),
{
    reveal_strlit("          is ");
    reveal_strlit("        handlers.");
    reveal_strlit("        onFault(fault)\n");
    reveal_strlit("        return\n");
    reveal_strlit("        val fault = ");
    reveal_strlit("        when (answered) {\n");
    reveal_strlit("        }\n");
    reveal_strlit("      if (id != null) {\n");
    reveal_strlit("      val answered = try {\n");
    reveal_strlit("      } catch (unexpected: Throwable) {\n");
    reveal_strlit("      }\n");
    reveal_strlit("    }\n");
    reveal_strlit("(decoded)\n");
    reveal_strlit(")\n");
    reveal_strlit(".Declared -> send(");
    reveal_strlit(".Fault -> send(");
    reveal_strlit(".Ok -> send(");
    reveal_strlit("WsHandlerPanic(\"");
    reveal_strlit("\", unexpected.toString())\n");
    let t = "          is "@ + result + ".Declared -> send("@ + declared_frame;
    let q0 = "      val answered = try {\n"@ + "        handlers."@ + call + "(decoded)\n"@ + "      } catch (unexpected: Throwable) {\n"@ + "        val fault = "@ + fn_prefix + "WsHandlerPanic(\""@ + wire + "\", unexpected.toString())\n"@ + "        onFault(fault)\n"@ + panic_fault + "        return\n"@ + "      }\n"@ + "      if (id != null) {\n"@ + "        when (answered) {\n"@ + "          is "@ + result + ".Ok -> send("@ + ok_frame + ")\n"@;
    let q = q0 + "          is "@ + result + ".Declared -> send("@ + declared_frame;
    assert(q.subrange(q0.len() as int, q0.len() as int + t.len()) =~= t);
    lemma_contains_at(q, t, q0.len() as int);
    lemma_contains_in_prefix(q, ")\n"@, t);
    let q = q + ")\n"@;
    lemma_contains_in_prefix(q, "          is "@, t);
    let q = q + "          is "@;
    lemma_contains_in_prefix(q, result, t);
    let q = q + result;
    lemma_contains_in_prefix(q, ".Fault -> send("@, t);
    let q = q + ".Fault -> send("@;
    lemma_contains_in_prefix(q, fault_frame, t);
    let q = q + fault_frame;
    lemma_contains_in_prefix(q, ")\n"@, t);
    let q = q + ")\n"@;
    lemma_contains_in_prefix(q, "        }\n"@, t);
    let q = q + "        }\n"@;
    lemma_contains_in_prefix(q, "      }\n"@, t);
    let q = q + "      }\n"@;
    lemma_contains_in_prefix(q, "    }\n"@, t);
    let q = q + "    }\n"@;
    assert(q == reply_arm_tail_text(call, fn_prefix, wire, panic_fault, result, ok_frame, declared_frame, fault_frame));
}

proof fn lemma_reply_tail_holds_fault_arm(call: Seq<char>, fn_prefix: Seq<char>, wire: Seq<char>, panic_fault: Seq<char>, result: Seq<char>, ok_frame: Seq<char>, declared_frame: Seq<char>, fault_frame: Seq<char>)
    ensures
        contains_text(reply_arm_tail_text(call, fn_prefix, wire, panic_fault, result, ok_frame, declared_frame, fault_frame), "          is "@ + result + ".Fault -> send("@ + fault_frame),
{
    reveal_strlit("          is ");
    reveal_strlit("        handlers.");
    reveal_strlit("        onFault(fault)\n");
    reveal_strlit("        return\n");
    reveal_strlit("        val fault = ");
    reveal_strlit("        when (answered) {\n");
    reveal_strlit("        }\n");
    reveal_strlit("      if (id != null) {\n");
    reveal_strlit("      val answered = try {\n");
    reveal_strlit("      } catch (unexpected: Throwable) {\n");
    reveal_strlit("      }\n");
    reveal_strlit("    }\n");
    reveal_strlit("(decoded)\n");
    reveal_strlit(")\n");
    reveal_strlit(".Declared -> send(");
    reveal_strlit(".Fault -> send(");
    reveal_strlit(".Ok -> send(");
    reveal_strlit("WsHandlerPanic(\"");
    reveal_strlit("\", unexpected.toString())\n");
    let t = "          is "@ + result + ".Fault -> send("@ + fault_frame;
    let q0 = "      val answered = try {\n"@ + "        handlers."@ + call + "(decoded)\n"@ + "      } catch (unexpected: Throwable) {\n"@ + "        val fault = "@ + fn_prefix + "WsHandlerPanic(\""@ + wire + "\", unexpected.toString())\n"@ + "        onFault(fault)\n"@ + panic_fault + "        return\n"@ + "      }\n"@ + "      if (id != null) {\n"@ + "        when (answered) {\n"@ + "          is "@ + result + ".Ok -> send("@ + ok_frame + ")\n"@ + "          is "@ + result + ".Declared -> send("@ + declared_frame + ")\n"@;
    let q = q0 + "          is "@ + result + ".Fault -> send("@ + fault_frame;
    assert(q.subrange(q0.len() as int, q0.len() as int + t.len()) =~= t);
    lemma_contains_at(q, t, q0.len() as int);
    lemma_contains_in_prefix(q, ")\n"@, t);
    let q = q + ")\n"@;
    lemma_contains_in_prefix(q, "        }\n"@, t);
    let q = q + "        }\n"@;
    lemma_contains_in_prefix(q, "      }\n"@, t);
    let q = q + "      }\n"@;
    lemma_contains_in_prefix(q, "    }\n"@, t);
    let q = q + "    }\n"@;
    assert(q == reply_arm_tail_text(call, fn_prefix, wire, panic_fault, result, ok_frame, declared_frame, fault_frame));
}


/// How a dispatch arm answers a waiting request for one case of the handler's result: the case,
/// then the reply frame's leading fields, its `ok` flag and the key its payload goes under.
pub open spec fn answered_arm_opening(
    result: Seq<char>,
    case: Seq<char>,
    named: Seq<char>,
    ok: Seq<char>,
    key: Seq<char>,
) -> Seq<char> {
    "          is "@ + result + case
        + " -> send(buildJsonObject { put(\"kind\", \"reply\"); put(\"id\", id); put(\"service\", \""@
        + named + "\"); put(\"ok\", "@ + ok + "); put(\""@ + key + "\", "@
}

proof fn lemma_answered_arm_opening(
    tail: Seq<char>,
    result: Seq<char>,
    case: Seq<char>,
    named: Seq<char>,
    ok: Seq<char>,
    key: Seq<char>,
    value: Seq<char>,
)
    requires
        contains_text(tail, "          is "@ + result + (case + " -> send("@) + reply_frame_text(named, ok, key, value)),
    ensures
        contains_text(tail, answered_arm_opening(result, case, named, ok, key)),
{
    reveal_strlit(" -> send(");
    reveal_strlit("          is ");
    reveal_strlit("buildJsonObject { put(\"kind\", \"reply\"); put(\"id\", id); put(\"service\", \"");
    reveal_strlit(" -> send(buildJsonObject { put(\"kind\", \"reply\"); put(\"id\", id); put(\"service\", \"");
    reveal_strlit("\"); put(\"ok\", ");
    reveal_strlit("); put(\"");
    reveal_strlit("\", ");
    let a = "          is "@ + result + (case + " -> send("@);
    let frame = reply_frame_text(named, ok, key, value);
    let p = "buildJsonObject { put(\"kind\", \"reply\"); put(\"id\", id); put(\"service\", \""@
        + named + "\"); put(\"ok\", "@ + ok + "); put(\""@ + key + "\", "@;
    assert(frame.subrange(0, p.len() as int) =~= p);
    lemma_contains_shorter(tail, a, frame, p);
    assert(a + p =~= answered_arm_opening(result, case, named, ok, key));
}

proof fn lemma_case_sends()
    ensures
        ".Ok"@ + " -> send("@ == ".Ok -> send("@,
        ".Declared"@ + " -> send("@ == ".Declared -> send("@,
        ".Fault"@ + " -> send("@ == ".Fault -> send("@,
{
    reveal_strlit(".Ok -> send(");
    reveal_strlit(".Declared -> send(");
    reveal_strlit(".Fault -> send(");
    reveal_strlit(".Ok");
    reveal_strlit(".Declared");
    reveal_strlit(".Fault");
    reveal_strlit(" -> send(");
    assert(".Ok"@ + " -> send("@ =~= ".Ok -> send("@);
    assert(".Declared"@ + " -> send("@ =~= ".Declared -> send("@);
    assert(".Fault"@ + " -> send("@ =~= ".Fault -> send("@);
}

/// A reply operation's dispatch arm answers each case of the handler's result with its own
/// frame: `Ok` with `ok = true` and the value under `value`, and both a `Declared` error and a
/// `Fault` with `ok = false` and the payload under `error`; every frame names the service.
#[verifier::rlimit(80)]
pub proof fn lemma_reply_arm_frames(st: KotlinView, named: Seq<char>, prefix: Seq<char>, op: OperationDef)
    requires
        is_reply(op),
    ensures
        contains_text(
            dispatch_arm_text(st, named, prefix, op).0,
            answered_arm_opening(result_text(named, op), ".Ok"@, named, "true"@, "value"@),
        ),
        contains_text(
            dispatch_arm_text(st, named, prefix, op).0,
            answered_arm_opening(result_text(named, op), ".Declared"@, named, "false"@, "error"@),
        ),
        contains_text(
            dispatch_arm_text(st, named, prefix, op).0,
            answered_arm_opening(result_text(named, op), ".Fault"@, named, "false"@, "error"@),
        ),
{
    reveal(dispatch_arm_text);
    reveal_strlit(".Ok -> send(");
    reveal_strlit(".Declared -> send(");
    reveal_strlit(".Fault -> send(");
    reveal_strlit(".Ok");
    reveal_strlit(".Declared");
    reveal_strlit(".Fault");
    reveal_strlit(" -> send(");
    reveal_strlit("          is ");
    reveal(dispatch_arm_text);
    match op.outcome {
        OperationOutcome::Reply { error, success } => {
            let wire = op.wire_name@;
            let call = op.ts_name@;
            let (req_ty, st1) = kt_message(st, op);
            let fault = fault_reply_text(named, "fault"@);
            let head = arm_decode_text(wire, req_ty, prefix, fault);
            let result = result_text(named, op);
            let (ok_value, st2) = if unit_type(success.def) {
                ("JsonNull"@, st1)
            } else {
                let (success_ty, after) = kt_typename(st1, success.def);
                (ok_value_text(success_ty), after)
            };
            let ok_frame = reply_frame_text(named, "true"@, "value"@, ok_value);
            let (error_ty, st3) = kt_typename(st2, error.def);
            let declared_value = declared_value_text(error_ty);
            let declared_frame = reply_frame_text(named, "false"@, "error"@, declared_value);
            let fault_value = fault_envelope_text(fault_fields_text(named), "answered.fault"@);
            let fault_frame = reply_frame_text(named, "false"@, "error"@, fault_value);
            let tail = reply_arm_tail_text(call, prefix, wire, fault, result, ok_frame, declared_frame, fault_frame);
            assert(dispatch_arm_text(st, named, prefix, op).0 == head + tail);
            lemma_reply_tail_holds_ok_arm(call, prefix, wire, fault, result, ok_frame, declared_frame, fault_frame);
            lemma_reply_tail_holds_declared_arm(call, prefix, wire, fault, result, ok_frame, declared_frame, fault_frame);
            lemma_reply_tail_holds_fault_arm(call, prefix, wire, fault, result, ok_frame, declared_frame, fault_frame);
            lemma_case_sends();
            lemma_answered_arm_opening(tail, result, ".Ok"@, named, "true"@, "value"@, ok_value);
            lemma_answered_arm_opening(tail, result, ".Declared"@, named, "false"@, "error"@, declared_value);
            lemma_answered_arm_opening(tail, result, ".Fault"@, named, "false"@, "error"@, fault_value);
            lemma_contains_in_suffix(head, tail, answered_arm_opening(result, ".Ok"@, named, "true"@, "value"@));
            lemma_contains_in_suffix(head, tail, answered_arm_opening(result, ".Declared"@, named, "false"@, "error"@));
            lemma_contains_in_suffix(head, tail, answered_arm_opening(result, ".Fault"@, named, "false"@, "error"@));
        },
        _ => {},
    }
}

} // verus!
