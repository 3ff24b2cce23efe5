//! The Swift `ws_rpc` client: a socket seam over which one actor correlates requests to their
//! replies, probes liveness on a heartbeat, checks every reply against the operation's own
//! declared type, and settles every waiting call with a `transport-failure` fault when the socket
//! closes.
//!
//! The transport is one `actor` carrying one public method per operation; `{Named}WsClient` is
//! another name for it. Inbound frames are fed through one `AsyncStream` drained by one loop, so
//! they are handled in the order they arrived. `{Named}{Operation}Failure` and `{Named}Refusal`
//! are declared by the HTTP client and only named here; the two faults this transport reports on
//! its own carry a `Ws` infix so a bundle with both clients declares each name once.

use crate::field_def::unit_type;
use crate::rename_rule::{RenameRule, ascii_led, pascal_field, variant_renamed};
use crate::service::{OperationDef, OperationInputs, OperationOutcome, ServiceDef};
use crate::swift_ws_text::{
    actor_close_method, actor_close_text, actor_correlate, actor_correlate_text, actor_handle_close,
    actor_handle_close_text, actor_handle_message, actor_handle_message_text, actor_header,
    actor_header_text, actor_heartbeat_machinery, actor_heartbeat_text, actor_init,
    actor_init_text, actor_layout, actor_layout_text, actor_send_notify, actor_send_notify_text,
    client_alias, client_alias_text, failed_validation_helper_layout,
    failed_validation_helper_text, one_way_method_layout, one_way_method_text, options_type,
    options_type_text, reply_method_layout, reply_method_text, socket_type, socket_type_text,
    support_types_layout, support_types_text, transport_failure_helper_layout,
    transport_failure_helper_text, value_success_block, value_success_text,
};
use crate::text::{join, join_texts};
use crate::kotlin_laws::{
    contains_text, lemma_contains_at, lemma_contains_in_prefix, lemma_contains_trans, lemma_join_holds_part,
};
use vstd::prelude::*;

verus! {

/// `{Named}Refusal`, the error every one-way method throws.
pub open spec fn refusal_text(named: Seq<char>) -> Seq<char> {
    named + "Refusal"@
}

/// `{Named}Fault`, the fault type both the REST and the `ws_rpc` client answer a defect with.
pub open spec fn fault_text(named: Seq<char>) -> Seq<char> {
    named + "Fault"@
}

/// `{Named}{PascalOperation}Failure`, the failure arm every reply method answers with.
pub open spec fn failure_text(named: Seq<char>, op: OperationDef) -> Seq<char> {
    named + pascal_field(op.ident@) + "Failure"@
}

/// The message's Swift type and the declarations it needs: the type the operation named, the one
/// the macro declared for an operation that named none, or `String` (needing none) when there is
/// neither.
pub open spec fn sw_message(op: OperationDef) -> (Seq<char>, Seq<Seq<char>>) {
    match op.inputs {
        OperationInputs::Named(declared) => (declared.swift@, declared.swift_aux.deep_view()),
        _ => match op.generated_message {
            Option::Some(g) => (g.swift@, g.swift_aux.deep_view()),
            Option::None => ("String"@, Seq::empty()),
        },
    }
}

/// The unit success's own block: `.success(())`.
pub open spec fn unit_success_text() -> Seq<char> {
    "        return .success(())\n"@
}

/// One method of the actor.
#[verifier::opaque]
pub open spec fn operation_method_text(named: Seq<char>, prefix: Seq<char>, op: OperationDef) -> Seq<
    char,
> {
    let wire = op.wire_name@;
    let call = op.ts_name@;
    let param_ty = sw_message(op).0;
    match op.outcome {
        OperationOutcome::OneWay => one_way_method_text(
            wire,
            call,
            param_ty,
            refusal_text(named),
            prefix,
        ),
        OperationOutcome::Reply { error, success } => {
            let success_ty = if unit_type(success.def) {
                "Void"@
            } else {
                success.swift@
            };
            let success_block = if unit_type(success.def) {
                unit_success_text()
            } else {
                value_success_text(named, success_ty, prefix, wire)
            };
            reply_method_text(
                wire,
                call,
                param_ty,
                success_ty,
                failure_text(named, op),
                prefix,
                named,
                success_block,
                error.swift@,
            )
        },
    }
}

/// The declarations one operation's method needs beside the actor: its message's, then (for a
/// reply) its success's unless that is `()`, then its declared error's.
pub open spec fn operation_aux(op: OperationDef) -> Seq<Seq<char>> {
    let message_aux = sw_message(op).1;
    match op.outcome {
        OperationOutcome::OneWay => message_aux,
        OperationOutcome::Reply { error, success } => {
            let success_aux = if unit_type(success.def) {
                Seq::empty()
            } else {
                success.swift_aux.deep_view()
            };
            message_aux + success_aux + error.swift_aux.deep_view()
        },
    }
}

/// The methods of the first `n` operations of `ops`, in order.
pub open spec fn operation_methods(named: Seq<char>, prefix: Seq<char>, ops: Seq<OperationDef>, n: nat) -> Seq<
    Seq<char>,
>
    decreases n,
{
    if n == 0 || n > ops.len() {
        Seq::empty()
    } else {
        operation_methods(named, prefix, ops, (n - 1) as nat).push(
            operation_method_text(named, prefix, ops[n - 1]),
        )
    }
}

/// The declarations the first `n` operations of `ops` need, in order.
pub open spec fn operation_auxes(ops: Seq<OperationDef>, n: nat) -> Seq<Seq<char>>
    decreases n,
{
    if n == 0 || n > ops.len() {
        Seq::empty()
    } else {
        operation_auxes(ops, (n - 1) as nat) + operation_aux(ops[n - 1])
    }
}

/// The transport actor around its methods.
#[verifier::opaque]
pub open spec fn actor_text(named: Seq<char>, methods: Seq<char>) -> Seq<char> {
    actor_layout_text(
        actor_header_text(named),
        actor_init_text(named),
        actor_close_text(),
        actor_correlate_text(named),
        actor_send_notify_text(named),
        actor_handle_message_text(named),
        actor_heartbeat_text(),
        actor_handle_close_text(),
        methods,
    )
}

/// Everything the Swift `ws_rpc` client publishes for `service`, in order: the socket seam, the
/// options, the shared frame shapes, the two fault helpers, the actor, the declarations its
/// methods' types need, and the client alias.
pub open spec fn swift_ws_client_texts(service: ServiceDef) -> Seq<Seq<char>> {
    let named = service.ident@;
    let prefix = variant_renamed(RenameRule::CamelCase, named);
    let ops = service.operations@;
    seq![
        socket_type_text(named),
        options_type_text(named),
        support_types_text(named, fault_text(named)),
        transport_failure_helper_text(named, prefix, fault_text(named)),
        failed_validation_helper_text(named, prefix, fault_text(named)),
        actor_text(named, join(operation_methods(named, prefix, ops, ops.len()), "\n\n"@)),
    ] + operation_auxes(ops, ops.len()) + seq![client_alias_text(named)]
}

/// Everything the Swift `ws_rpc` client publishes for `service`: the socket seam, the options,
/// the shared frame shapes, the two fault helpers, the transport actor with one method per
/// operation, the declarations the types its methods name need, and the client alias.
pub fn emit(service: &ServiceDef) -> (r: Vec<String>)
    requires
        ascii_led(service.ident@),
    ensures
        r.deep_view() == swift_ws_client_texts(*service),
{
    let named = service.ident.as_str();
    let camel = RenameRule::CamelCase.apply_to_variant(named);
    let prefix = camel.as_str();
    let fault = fault_name(named);
    let mut aux: Vec<String> = Vec::new();
    assert(aux.deep_view() =~= Seq::<Seq<char>>::empty());
    let methods = operation_method_texts(named, prefix, &service.operations, &mut aux);
    assert(aux.deep_view() =~= operation_auxes(service.operations@, service.operations.len() as nat));
    let joined = join_texts(&methods, "\n\n");
    let actor = transport_actor(named, joined.as_str());
    let mut published: Vec<String> = Vec::new();
    published.push(socket_type(named));
    published.push(options_type(named));
    published.push(support_types_layout(named, fault.as_str()));
    published.push(transport_failure_helper_layout(named, prefix, fault.as_str()));
    published.push(failed_validation_helper_layout(named, prefix, fault.as_str()));
    published.push(actor);
    let ghost head = published.deep_view();
    assert(head =~= swift_ws_client_texts(*service).take(6));
    append_texts(&mut published, &aux);
    let alias = client_alias(named);
    let ghost middle = published.deep_view();
    published.push(alias);
    assert(published.deep_view() =~= middle.push(alias@));
    assert(published.deep_view() =~= swift_ws_client_texts(*service));
    published
}

/// Appends a copy of every text of `more` to `texts`.
fn append_texts(texts: &mut Vec<String>, more: &Vec<String>)
    ensures
        final(texts).deep_view() == old(texts).deep_view() + more.deep_view(),
{
    let ghost start = texts.deep_view();
    let mut i: usize = 0;
    while i < more.len()
        invariant
            i <= more.len(),
            texts.deep_view() =~= start + more.deep_view().take(i as int),
        decreases more.len() - i,
    {
        let ghost before = texts.deep_view();
        let copy = more[i].clone();
        texts.push(copy);
        assert(texts.deep_view() =~= before.push(more.deep_view()[i as int]));
        assert(more.deep_view().take(i + 1) =~= more.deep_view().take(i as int).push(
            more.deep_view()[i as int],
        ));
        i = i + 1;
    }
    assert(more.deep_view().take(more.len() as int) =~= more.deep_view());
}

fn fault_name(named: &str) -> (r: String)
    ensures
        r@ == fault_text(named@),
{
    let mut r = String::from_str(named);
    r.append("Fault");
    r
}

fn transport_actor(named: &str, methods: &str) -> (r: String)
    ensures
        r@ == actor_text(named@, methods@),
{
    reveal(actor_text);
    let header = actor_header(named);
    let init = actor_init(named);
    let close = actor_close_method();
    let correlate = actor_correlate(named);
    let notify = actor_send_notify(named);
    let handle_message = actor_handle_message(named);
    let heartbeat = actor_heartbeat_machinery();
    let handle_close = actor_handle_close();
    actor_layout(
        header.as_str(),
        init.as_str(),
        close.as_str(),
        correlate.as_str(),
        notify.as_str(),
        handle_message.as_str(),
        heartbeat.as_str(),
        handle_close.as_str(),
        methods,
    )
}

/// The message's Swift type, its declarations appended to `aux`: see [`sw_message`].
fn message_swift_type(operation: &OperationDef, aux: &mut Vec<String>) -> (r: String)
    ensures
        r@ == sw_message(*operation).0,
        final(aux).deep_view() == old(aux).deep_view() + sw_message(*operation).1,
{
    match &operation.inputs {
        OperationInputs::Named(declared) => {
            append_texts(aux, &declared.swift_aux);
            declared.swift.clone()
        },
        _ => match &operation.generated_message {
            Option::Some(g) => {
                append_texts(aux, &g.swift_aux);
                g.swift.clone()
            },
            Option::None => {
                assert(aux.deep_view() =~= aux.deep_view() + Seq::<Seq<char>>::empty());
                String::from_str("String")
            },
        },
    }
}

fn operation_method(named: &str, prefix: &str, operation: &OperationDef, aux: &mut Vec<String>) -> (r:
    String)
    ensures
        r@ == operation_method_text(named@, prefix@, *operation),
        final(aux).deep_view() == old(aux).deep_view() + operation_aux(*operation),
{
    reveal(operation_method_text);
    let ghost start = aux.deep_view();
    let call = operation.ts_name.as_str();
    let wire = operation.wire_name.as_str();
    let param_ty = message_swift_type(operation, aux);
    match &operation.outcome {
        OperationOutcome::OneWay => {
            let mut refusal = String::from_str(named);
            refusal.append("Refusal");
            one_way_method_layout(wire, call, param_ty.as_str(), refusal.as_str(), prefix)
        },
        OperationOutcome::Reply { error, success } => {
            let ghost after_message = aux.deep_view();
            let mut failure = String::from_str(named);
            let pascal = RenameRule::PascalCase.apply_to_field(operation.ident.as_str());
            failure.append(pascal.as_str());
            failure.append("Failure");
            let (success_ty, success_block) = if success.def.is_unit_type() {
                assert(aux.deep_view() =~= aux.deep_view() + Seq::<Seq<char>>::empty());
                (String::from_str("Void"), String::from_str("        return .success(())\n"))
            } else {
                append_texts(aux, &success.swift_aux);
                let success_ty = success.swift.clone();
                let block = value_success_block(named, success_ty.as_str(), prefix, wire);
                (success_ty, block)
            };
            append_texts(aux, &error.swift_aux);
            assert(aux.deep_view() =~= start + operation_aux(*operation));
            reply_method_layout(
                wire,
                call,
                param_ty.as_str(),
                success_ty.as_str(),
                failure.as_str(),
                prefix,
                named,
                success_block.as_str(),
                error.swift.as_str(),
            )
        },
    }
}

fn operation_method_texts(
    named: &str,
    prefix: &str,
    operations: &Vec<OperationDef>,
    aux: &mut Vec<String>,
) -> (r: Vec<String>)
    ensures
        r.deep_view() == operation_methods(named@, prefix@, operations@, operations.len() as nat),
        final(aux).deep_view() == old(aux).deep_view() + operation_auxes(operations@, operations.len() as nat),
{
    let ghost start = aux.deep_view();
    let mut r: Vec<String> = Vec::new();
    let mut i: usize = 0;
    while i < operations.len()
        invariant
            i <= operations.len(),
            r.deep_view() == operation_methods(named@, prefix@, operations@, i as nat),
            aux.deep_view() == start + operation_auxes(operations@, i as nat),
        decreases operations.len() - i,
    {
        let ghost aux_before = aux.deep_view();
        let method = operation_method(named, prefix, &operations[i], aux);
        assert(aux.deep_view() =~= start + operation_auxes(operations@, (i + 1) as nat));
        let ghost before = r.deep_view();
        r.push(method);
        assert(r.deep_view() =~= before.push(method@));
        i = i + 1;
    }
    r
}

/// The actor carries exactly one method per operation, in declaration order: the `i`-th method is
/// the `i`-th operation's.
pub proof fn lemma_one_method_per_operation(
    named: Seq<char>,
    prefix: Seq<char>,
    ops: Seq<OperationDef>,
    n: nat,
)
    requires
        n <= ops.len(),
    ensures
        operation_methods(named, prefix, ops, n).len() == n,
        forall|i: int|
            0 <= i < n ==> #[trigger] operation_methods(named, prefix, ops, n)[i]
                == operation_method_text(named, prefix, ops[i]),
    decreases n,
{
    if n > 0 {
        lemma_one_method_per_operation(named, prefix, ops, (n - 1) as nat);
        let before = operation_methods(named, prefix, ops, (n - 1) as nat);
        assert forall|i: int| 0 <= i < n implies #[trigger] operation_methods(
            named,
            prefix,
            ops,
            n,
        )[i] == operation_method_text(named, prefix, ops[i]) by {
            if i < n - 1 {
                assert(before[i] == operation_method_text(named, prefix, ops[i]));
            }
        }
    }
}

proof fn lemma_one_way_method_opening(wire: Seq<char>, call: Seq<char>, param_ty: Seq<char>, refusal: Seq<char>, prefix: Seq<char>)
    ensures
        contains_text(one_way_method_text(wire, call, param_ty, refusal, prefix), "  public func "@ + call + "(_ req: "@ + param_ty + ")"@),
{
    reveal_strlit("      throw ");
    reveal_strlit("      try sendNotify(operation: \"");
    reveal_strlit("    do {\n");
    reveal_strlit("    } catch {\n");
    reveal_strlit("    }\n");
    reveal_strlit("  /// Calls `");
    reveal_strlit("  public func ");
    reveal_strlit("  }");
    reveal_strlit("(_ req: ");
    reveal_strlit("(fault: ");
    reveal_strlit(") async throws {\n");
    reveal_strlit("WsFailedValidation(\"");
    reveal_strlit("\", \"\\(error)\"))\n");
    reveal_strlit("\", payload: req)\n");
    reveal_strlit("` over `ws_rpc`.\n");
    reveal_strlit(")");
    let t = "  public func "@ + call + "(_ req: "@ + param_ty + ")"@;
    let q0 = "  /// Calls `"@ + wire + "` over `ws_rpc`.\n"@;
    let q = q0 + "  public func "@ + call + "(_ req: "@ + param_ty;
    let q = q + ") async throws {\n"@;
    assert(q.subrange(q0.len() as int, q0.len() as int + t.len()) =~= t);
    lemma_contains_at(q, t, q0.len() as int);
    lemma_contains_in_prefix(q, "    do {\n"@, t);
    let q = q + "    do {\n"@;
    lemma_contains_in_prefix(q, "      try sendNotify(operation: \""@, t);
    let q = q + "      try sendNotify(operation: \""@;
    lemma_contains_in_prefix(q, wire, t);
    let q = q + wire;
    lemma_contains_in_prefix(q, "\", payload: req)\n"@, t);
    let q = q + "\", payload: req)\n"@;
    lemma_contains_in_prefix(q, "    } catch {\n"@, t);
    let q = q + "    } catch {\n"@;
    lemma_contains_in_prefix(q, "      throw "@, t);
    let q = q + "      throw "@;
    lemma_contains_in_prefix(q, refusal, t);
    let q = q + refusal;
    lemma_contains_in_prefix(q, "(fault: "@, t);
    let q = q + "(fault: "@;
    lemma_contains_in_prefix(q, prefix, t);
    let q = q + prefix;
    lemma_contains_in_prefix(q, "WsFailedValidation(\""@, t);
    let q = q + "WsFailedValidation(\""@;
    lemma_contains_in_prefix(q, wire, t);
    let q = q + wire;
    lemma_contains_in_prefix(q, "\", \"\\(error)\"))\n"@, t);
    let q = q + "\", \"\\(error)\"))\n"@;
    lemma_contains_in_prefix(q, "    }\n"@, t);
    let q = q + "    }\n"@;
    lemma_contains_in_prefix(q, "  }"@, t);
    let q = q + "  }"@;
    assert(q == one_way_method_text(wire, call, param_ty, refusal, prefix));
}

proof fn lemma_reply_method_opening(wire: Seq<char>, call: Seq<char>, param_ty: Seq<char>, success_ty: Seq<char>, failure: Seq<char>, prefix: Seq<char>, named: Seq<char>, success_block: Seq<char>, error_ty: Seq<char>)
    ensures
        contains_text(reply_method_text(wire, call, param_ty, success_ty, failure, prefix, named, success_block, error_ty), "  public func "@ + call + "(_ req: "@ + param_ty + ")"@),
{
    reveal_strlit("       let fault = probed.error.fault {\n");
    reveal_strlit("       probed.error.isServiceFault == true,\n");
    reveal_strlit("      let declared = try JSONDecoder().decode(");
    reveal_strlit("      ok = try JSONDecoder().decode(");
    reveal_strlit("      raw = try await correlate(operation: \"");
    reveal_strlit("      return .failure(.declared(declared.error))\n");
    reveal_strlit("      return .failure(.fault(");
    reveal_strlit("      return .failure(.fault(fault))\n");
    reveal_strlit("    do {\n");
    reveal_strlit("    guard let raw else {\n");
    reveal_strlit("    if let probed = try? JSONDecoder().decode(");
    reveal_strlit("    if ok {\n");
    reveal_strlit("    let ok: Bool\n");
    reveal_strlit("    let raw: Data?\n");
    reveal_strlit("    } catch {\n");
    reveal_strlit("    }\n");
    reveal_strlit("  /// Calls `");
    reveal_strlit("  public func ");
    reveal_strlit("  }");
    reveal_strlit("(_ req: ");
    reveal_strlit(") async -> Result<");
    reveal_strlit(", ");
    reveal_strlit("> {\n");
    reveal_strlit(">.self, from: raw)\n");
    reveal_strlit("WsDeclaredEnvelope<");
    reveal_strlit("WsFailedValidation(\"");
    reveal_strlit("WsFaultEnvelope.self, from: raw),\n");
    reveal_strlit("WsOkProbe.self, from: raw).ok\n");
    reveal_strlit("WsTransportFailure(\"");
    reveal_strlit("\", \"\\(error)\")))\n");
    reveal_strlit("\", \"the socket closed before the reply arrived\")))\n");
    reveal_strlit("\", payload: req)\n");
    reveal_strlit("` over `ws_rpc`.\n");
    reveal_strlit(")");
    let t = "  public func "@ + call + "(_ req: "@ + param_ty + ")"@;
    let q0 = "  /// Calls `"@ + wire + "` over `ws_rpc`.\n"@;
    let q = q0 + "  public func "@ + call + "(_ req: "@ + param_ty;
    let q = q + ") async -> Result<"@;
    assert(q.subrange(q0.len() as int, q0.len() as int + t.len()) =~= t);
    lemma_contains_at(q, t, q0.len() as int);
    lemma_contains_in_prefix(q, success_ty, t);
    let q = q + success_ty;
    lemma_contains_in_prefix(q, ", "@, t);
    let q = q + ", "@;
    lemma_contains_in_prefix(q, failure, t);
    let q = q + failure;
    lemma_contains_in_prefix(q, "> {\n"@, t);
    let q = q + "> {\n"@;
    lemma_contains_in_prefix(q, "    let raw: Data?\n"@, t);
    let q = q + "    let raw: Data?\n"@;
    lemma_contains_in_prefix(q, "    do {\n"@, t);
    let q = q + "    do {\n"@;
    lemma_contains_in_prefix(q, "      raw = try await correlate(operation: \""@, t);
    let q = q + "      raw = try await correlate(operation: \""@;
    lemma_contains_in_prefix(q, wire, t);
    let q = q + wire;
    lemma_contains_in_prefix(q, "\", payload: req)\n"@, t);
    let q = q + "\", payload: req)\n"@;
    lemma_contains_in_prefix(q, "    } catch {\n"@, t);
    let q = q + "    } catch {\n"@;
    lemma_contains_in_prefix(q, "      return .failure(.fault("@, t);
    let q = q + "      return .failure(.fault("@;
    lemma_contains_in_prefix(q, prefix, t);
    let q = q + prefix;
    lemma_contains_in_prefix(q, "WsFailedValidation(\""@, t);
    let q = q + "WsFailedValidation(\""@;
    lemma_contains_in_prefix(q, wire, t);
    let q = q + wire;
    lemma_contains_in_prefix(q, "\", \"\\(error)\")))\n"@, t);
    let q = q + "\", \"\\(error)\")))\n"@;
    lemma_contains_in_prefix(q, "    }\n"@, t);
    let q = q + "    }\n"@;
    lemma_contains_in_prefix(q, "    guard let raw else {\n"@, t);
    let q = q + "    guard let raw else {\n"@;
    lemma_contains_in_prefix(q, "      return .failure(.fault("@, t);
    let q = q + "      return .failure(.fault("@;
    lemma_contains_in_prefix(q, prefix, t);
    let q = q + prefix;
    lemma_contains_in_prefix(q, "WsTransportFailure(\""@, t);
    let q = q + "WsTransportFailure(\""@;
    lemma_contains_in_prefix(q, wire, t);
    let q = q + wire;
    lemma_contains_in_prefix(q, "\", \"the socket closed before the reply arrived\")))\n"@, t);
    let q = q + "\", \"the socket closed before the reply arrived\")))\n"@;
    lemma_contains_in_prefix(q, "    }\n"@, t);
    let q = q + "    }\n"@;
    lemma_contains_in_prefix(q, "    let ok: Bool\n"@, t);
    let q = q + "    let ok: Bool\n"@;
    lemma_contains_in_prefix(q, "    do {\n"@, t);
    let q = q + "    do {\n"@;
    lemma_contains_in_prefix(q, "      ok = try JSONDecoder().decode("@, t);
    let q = q + "      ok = try JSONDecoder().decode("@;
    lemma_contains_in_prefix(q, named, t);
    let q = q + named;
    lemma_contains_in_prefix(q, "WsOkProbe.self, from: raw).ok\n"@, t);
    let q = q + "WsOkProbe.self, from: raw).ok\n"@;
    lemma_contains_in_prefix(q, "    } catch {\n"@, t);
    let q = q + "    } catch {\n"@;
    lemma_contains_in_prefix(q, "      return .failure(.fault("@, t);
    let q = q + "      return .failure(.fault("@;
    lemma_contains_in_prefix(q, prefix, t);
    let q = q + prefix;
    lemma_contains_in_prefix(q, "WsFailedValidation(\""@, t);
    let q = q + "WsFailedValidation(\""@;
    lemma_contains_in_prefix(q, wire, t);
    let q = q + wire;
    lemma_contains_in_prefix(q, "\", \"\\(error)\")))\n"@, t);
    let q = q + "\", \"\\(error)\")))\n"@;
    lemma_contains_in_prefix(q, "    }\n"@, t);
    let q = q + "    }\n"@;
    lemma_contains_in_prefix(q, "    if ok {\n"@, t);
    let q = q + "    if ok {\n"@;
    lemma_contains_in_prefix(q, success_block, t);
    let q = q + success_block;
    lemma_contains_in_prefix(q, "    }\n"@, t);
    let q = q + "    }\n"@;
    lemma_contains_in_prefix(q, "    if let probed = try? JSONDecoder().decode("@, t);
    let q = q + "    if let probed = try? JSONDecoder().decode("@;
    lemma_contains_in_prefix(q, named, t);
    let q = q + named;
    lemma_contains_in_prefix(q, "WsFaultEnvelope.self, from: raw),\n"@, t);
    let q = q + "WsFaultEnvelope.self, from: raw),\n"@;
    lemma_contains_in_prefix(q, "       probed.error.isServiceFault == true,\n"@, t);
    let q = q + "       probed.error.isServiceFault == true,\n"@;
    lemma_contains_in_prefix(q, "       let fault = probed.error.fault {\n"@, t);
    let q = q + "       let fault = probed.error.fault {\n"@;
    lemma_contains_in_prefix(q, "      return .failure(.fault(fault))\n"@, t);
    let q = q + "      return .failure(.fault(fault))\n"@;
    lemma_contains_in_prefix(q, "    }\n"@, t);
    let q = q + "    }\n"@;
    lemma_contains_in_prefix(q, "    do {\n"@, t);
    let q = q + "    do {\n"@;
    lemma_contains_in_prefix(q, "      let declared = try JSONDecoder().decode("@, t);
    let q = q + "      let declared = try JSONDecoder().decode("@;
    lemma_contains_in_prefix(q, named, t);
    let q = q + named;
    lemma_contains_in_prefix(q, "WsDeclaredEnvelope<"@, t);
    let q = q + "WsDeclaredEnvelope<"@;
    lemma_contains_in_prefix(q, error_ty, t);
    let q = q + error_ty;
    lemma_contains_in_prefix(q, ">.self, from: raw)\n"@, t);
    let q = q + ">.self, from: raw)\n"@;
    lemma_contains_in_prefix(q, "      return .failure(.declared(declared.error))\n"@, t);
    let q = q + "      return .failure(.declared(declared.error))\n"@;
    lemma_contains_in_prefix(q, "    } catch {\n"@, t);
    let q = q + "    } catch {\n"@;
    lemma_contains_in_prefix(q, "      return .failure(.fault("@, t);
    let q = q + "      return .failure(.fault("@;
    lemma_contains_in_prefix(q, prefix, t);
    let q = q + prefix;
    lemma_contains_in_prefix(q, "WsFailedValidation(\""@, t);
    let q = q + "WsFailedValidation(\""@;
    lemma_contains_in_prefix(q, wire, t);
    let q = q + wire;
    lemma_contains_in_prefix(q, "\", \"\\(error)\")))\n"@, t);
    let q = q + "\", \"\\(error)\")))\n"@;
    lemma_contains_in_prefix(q, "    }\n"@, t);
    let q = q + "    }\n"@;
    lemma_contains_in_prefix(q, "  }"@, t);
    let q = q + "  }"@;
    assert(q == reply_method_text(wire, call, param_ty, success_ty, failure, prefix, named, success_block, error_ty));
}


/// How a method of the actor opens: its name, then the one parameter `req` and its type.
pub open spec fn method_opening(call: Seq<char>, param_ty: Seq<char>) -> Seq<char> {
    "  public func "@ + call + "(_ req: "@ + param_ty + ")"@
}

/// Each method takes its operation's message: the type the operation names, else the type the
/// macro generated for its arguments, and `String` only where there is neither; and the
/// declarations that message type needs lead the ones the operation publishes beside the actor.
pub proof fn lemma_method_takes_its_message(named: Seq<char>, prefix: Seq<char>, op: OperationDef)
    ensures
        op.inputs matches OperationInputs::Named(d) ==> {
            &&& contains_text(operation_method_text(named, prefix, op), method_opening(op.ts_name@, d.swift@))
            &&& d.swift_aux.deep_view().len() <= operation_aux(op).len()
            &&& operation_aux(op).subrange(0, d.swift_aux.deep_view().len() as int) == d.swift_aux.deep_view()
        },
        !(op.inputs is Named) ==> (op.generated_message matches Option::Some(g) ==> {
            &&& contains_text(operation_method_text(named, prefix, op), method_opening(op.ts_name@, g.swift@))
            &&& g.swift_aux.deep_view().len() <= operation_aux(op).len()
            &&& operation_aux(op).subrange(0, g.swift_aux.deep_view().len() as int) == g.swift_aux.deep_view()
        }),
        !(op.inputs is Named) && op.generated_message is None ==> contains_text(
            operation_method_text(named, prefix, op),
            method_opening(op.ts_name@, "String"@),
        ),
{
    reveal(operation_method_text);
    let wire = op.wire_name@;
    let call = op.ts_name@;
    let (param_ty, message_aux) = sw_message(op);
    match op.outcome {
        OperationOutcome::OneWay => {
            lemma_one_way_method_opening(wire, call, param_ty, refusal_text(named), prefix);
            assert(operation_aux(op).subrange(0, message_aux.len() as int) =~= message_aux);
        },
        OperationOutcome::Reply { error, success } => {
            let success_ty = if unit_type(success.def) {
                "Void"@
            } else {
                success.swift@
            };
            let success_block = if unit_type(success.def) {
                unit_success_text()
            } else {
                value_success_text(named, success_ty, prefix, wire)
            };
            lemma_reply_method_opening(
                wire,
                call,
                param_ty,
                success_ty,
                failure_text(named, op),
                prefix,
                named,
                success_block,
                error.swift@,
            );
            let success_aux = if unit_type(success.def) {
                Seq::empty()
            } else {
                success.swift_aux.deep_view()
            };
            assert(operation_aux(op) == message_aux + success_aux + error.swift_aux.deep_view());
            assert(operation_aux(op).subrange(0, message_aux.len() as int) =~= message_aux);
        },
    }
}

proof fn lemma_actor_layout_holds_methods(header: Seq<char>, init: Seq<char>, close: Seq<char>, correlate: Seq<char>, notify: Seq<char>, handle_message: Seq<char>, heartbeat: Seq<char>, handle_close: Seq<char>, methods: Seq<char>)
    ensures
        contains_text(actor_layout_text(header, init, close, correlate, notify, handle_message, heartbeat, handle_close, methods), methods),
{
    reveal_strlit("\n");
    reveal_strlit("}");
    let t = methods;
    let q0 = header + init + close + correlate + notify + handle_message + heartbeat + handle_close + "\n"@ + "\n"@;
    let q = q0 + methods;
    assert(q.subrange(q0.len() as int, q0.len() as int + t.len()) =~= t);
    lemma_contains_at(q, t, q0.len() as int);
    lemma_contains_in_prefix(q, "\n"@, t);
    let q = q + "\n"@;
    lemma_contains_in_prefix(q, "}"@, t);
    let q = q + "}"@;
    assert(q == actor_layout_text(header, init, close, correlate, notify, handle_message, heartbeat, handle_close, methods));
}


proof fn lemma_auxes_extend(ops: Seq<OperationDef>, k: nat, n: nat)
    requires
        k <= n <= ops.len(),
    ensures
        operation_auxes(ops, k).len() <= operation_auxes(ops, n).len(),
        operation_auxes(ops, n).subrange(0, operation_auxes(ops, k).len() as int) == operation_auxes(ops, k),
    decreases n - k,
{
    if k < n {
        lemma_auxes_extend(ops, k, (n - 1) as nat);
        let a = operation_auxes(ops, (n - 1) as nat);
        let b = operation_auxes(ops, n);
        assert(b == a + operation_aux(ops[n - 1]));
        assert(b.subrange(0, operation_auxes(ops, k).len() as int) =~= a.subrange(0, operation_auxes(ops, k).len() as int));
    } else {
        let b = operation_auxes(ops, n);
        assert(b.subrange(0, b.len() as int) =~= b);
    }
}

/// Whether `x` is published after the actor and before the client alias.
pub open spec fn published_after_actor(texts: Seq<Seq<char>>, x: Seq<char>) -> bool {
    exists|idx: int| 6 <= idx < texts.len() - 1 && #[trigger] texts[idx] == x
}

/// Where an operation's declarations lead with `decls`, each of them is published after the actor
/// and before the client alias.
proof fn lemma_operation_decls_published(service: ServiceDef, k: int, decls: Seq<Seq<char>>)
    requires
        0 <= k < service.operations.len(),
        decls.len() <= operation_aux(service.operations@[k]).len(),
        operation_aux(service.operations@[k]).subrange(0, decls.len() as int) == decls,
    ensures
        forall|m: int| 0 <= m < decls.len() ==> published_after_actor(swift_ws_client_texts(service), #[trigger] decls[m]),
{
    let ops = service.operations@;
    let texts = swift_ws_client_texts(service);
    lemma_auxes_extend(ops, (k + 1) as nat, ops.len());
    let before = operation_auxes(ops, k as nat);
    let upto = operation_auxes(ops, (k + 1) as nat);
    let all = operation_auxes(ops, ops.len());
    assert(upto == before + operation_aux(ops[k]));
    assert forall|m: int| 0 <= m < decls.len() implies published_after_actor(texts, #[trigger] decls[m]) by {
        let idx = 6 + before.len() + m;
        assert(all[before.len() + m] == upto[before.len() + m]);
        assert(upto[before.len() + m] == operation_aux(ops[k])[m]);
        assert(operation_aux(ops[k])[m] == decls[m]);
        assert(texts[idx] == all[before.len() + m]);
        assert(6 <= idx < texts.len() - 1 && texts[idx] == decls[m]);
    }
}

/// The published actor's method for each operation takes that operation's message — the type it
/// names, else the type the macro generated for its arguments, and `String` only where there is
/// neither — and every declaration that message type needs is published after the actor.
pub proof fn lemma_client_takes_and_publishes_messages(service: ServiceDef, k: int)
    requires
        0 <= k < service.operations.len(),
    ensures
        ({
            let op = service.operations@[k];
            let texts = swift_ws_client_texts(service);
            &&& op.inputs matches OperationInputs::Named(d) ==> {
                &&& contains_text(texts[5], method_opening(op.ts_name@, d.swift@))
                &&& forall|m: int| 0 <= m < d.swift_aux.len() ==> published_after_actor(texts, (#[trigger] d.swift_aux@[m])@)
            }
            &&& !(op.inputs is Named) ==> (op.generated_message matches Option::Some(g) ==> {
                &&& contains_text(texts[5], method_opening(op.ts_name@, g.swift@))
                &&& forall|m: int| 0 <= m < g.swift_aux.len() ==> published_after_actor(texts, (#[trigger] g.swift_aux@[m])@)
            })
            &&& !(op.inputs is Named) && op.generated_message is None ==> contains_text(
                texts[5],
                method_opening(op.ts_name@, "String"@),
            )
        }),
{
    let named = service.ident@;
    let prefix = variant_renamed(RenameRule::CamelCase, named);
    let ops = service.operations@;
    let op = ops[k];
    let texts = swift_ws_client_texts(service);
    let methods = operation_methods(named, prefix, ops, ops.len());
    let joined = join(methods, "\n\n"@);
    lemma_one_method_per_operation(named, prefix, ops, ops.len());
    lemma_join_holds_part(methods, "\n\n"@, k);
    assert(texts[5] == actor_text(named, joined));
    reveal(actor_text);
    lemma_actor_layout_holds_methods(
        actor_header_text(named),
        actor_init_text(named),
        actor_close_text(),
        actor_correlate_text(named),
        actor_send_notify_text(named),
        actor_handle_message_text(named),
        actor_heartbeat_text(),
        actor_handle_close_text(),
        joined,
    );
    lemma_method_takes_its_message(named, prefix, op);
    let method = operation_method_text(named, prefix, op);
    let (param_ty, decls) = sw_message(op);
    let t = method_opening(op.ts_name@, param_ty);
    lemma_contains_trans(joined, method, t);
    lemma_contains_trans(texts[5], joined, t);
    if !(op.generated_message is None && !(op.inputs is Named)) {
        lemma_operation_decls_published(service, k, decls);
        match op.inputs {
            OperationInputs::Named(d) => {
                assert forall|m: int| 0 <= m < d.swift_aux.len() implies published_after_actor(texts, (#[trigger] d.swift_aux@[m])@) by {
                    assert(decls[m] == d.swift_aux@[m]@);
                    assert(decls.len() == d.swift_aux.len());
                }
            },
            _ => {
                let g = op.generated_message.unwrap();
                assert forall|m: int| 0 <= m < g.swift_aux.len() implies published_after_actor(texts, (#[trigger] g.swift_aux@[m])@) by {
                    assert(decls[m] == g.swift_aux@[m]@);
                    assert(decls.len() == g.swift_aux.len());
                }
            },
        }
    }
}

} // verus!
