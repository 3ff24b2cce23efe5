//! The `{Service}{Operation}Result` sealed class family: Dart's own construct for the outcome a
//! client answers a request-and-reply call with — a `sealed` base and one `final` subclass per
//! arm: `Ok` for the success, `Operation` for the error the operation declared, and `Fault` for
//! a fault it never declared.
//!
//! The family carries no `fromJson`/`toJson`: it is a value the client builds for its own
//! caller, never a shape a codec reads off the wire. A one-way operation declares no reply and
//! therefore gets none.

use crate::service::{
    OperationDef, OperationOutcome, ServiceDef, fault_fields_name, fault_fields_text, is_reply,
    result_name, result_name_of,
};
use vstd::prelude::*;

verus! {

/// The success member: field-less when the success carries no value, else holding it.
pub open spec fn ok_member_text(published: Seq<char>, value: Option<Seq<char>>) -> Seq<char> {
    match value {
        Option::None => "final class "@ + published + "Ok extends "@ + published + " {\n  const "@
            + published + "Ok();\n}"@,
        Option::Some(v) => "final class "@ + published + "Ok extends "@ + published
            + " {\n  const "@ + published + "Ok(this.value);\n  final "@ + v + " value;\n}"@,
    }
}

/// The whole family for the operation `ident` under the result name `published`.
pub open spec fn family_text(
    ident: Seq<char>,
    published: Seq<char>,
    ok_member: Seq<char>,
    failure: Seq<char>,
    fault: Seq<char>,
) -> Seq<char> {
    "/// What `"@ + ident
        + "` answers: the success, the error the operation declared, or a fault it never\n"@
        + "/// declared.\n"@ + "sealed class "@ + published + " {\n  const "@ + published
        + "();\n}\n\n"@ + ok_member + "\n\n"@ + "final class "@ + published + "Operation extends "@
        + published + " {\n  const "@ + published + "Operation(this.error);\n  final "@ + failure
        + " error;\n}\n\n"@ + "final class "@ + published + "Fault extends "@ + published
        + " {\n  const "@ + published + "Fault(this.fault);\n  final "@ + fault + " fault;\n}"@
}

/// The Dart text of the success's value, if it carries one.
pub open spec fn dart_success_text(op: OperationDef) -> Option<Seq<char>> {
    match op.dart_success {
        Option::Some(v) => Option::Some(v@),
        Option::None => Option::None,
    }
}

/// The family a reply operation gets; `None` for a one-way operation.
pub open spec fn result_pair_text(named: Seq<char>, op: OperationDef) -> Option<Seq<char>> {
    match op.outcome {
        OperationOutcome::Reply { error, .. } => {
            let published = result_name_of(named, op).unwrap();
            Option::Some(
                family_text(
                    op.ident@,
                    published,
                    ok_member_text(published, dart_success_text(op)),
                    error.dart@,
                    fault_fields_text(named),
                ),
            )
        },
        OperationOutcome::OneWay => Option::None,
    }
}

/// The families of the first `n` operations of `ops`, in order, a one-way operation skipped.
pub open spec fn result_pairs(named: Seq<char>, ops: Seq<OperationDef>, n: nat) -> Seq<Seq<char>>
    decreases n,
{
    if n == 0 || n > ops.len() {
        Seq::empty()
    } else {
        let before = result_pairs(named, ops, (n - 1) as nat);
        match result_pair_text(named, ops[n - 1]) {
            Option::Some(pair) => before.push(pair),
            Option::None => before,
        }
    }
}

/// How many of the first `n` operations of `ops` answer with a reply.
pub open spec fn reply_count(ops: Seq<OperationDef>, n: nat) -> nat
    decreases n,
{
    if n == 0 || n > ops.len() {
        0
    } else {
        reply_count(ops, (n - 1) as nat) + if is_reply(ops[n - 1]) {
            1nat
        } else {
            0nat
        }
    }
}

/// One family per reply operation of `service`, in declaration order.
pub fn emit(service: &ServiceDef) -> (r: Vec<String>)
    ensures
        r.deep_view() == result_pairs(
            service.ident@,
            service.operations@,
            service.operations.len() as nat,
        ),
        r.len() == reply_count(service.operations@, service.operations.len() as nat),
{
    let named = service.ident.as_str();
    let mut r: Vec<String> = Vec::new();
    let mut i: usize = 0;
    while i < service.operations.len()
        invariant
            i <= service.operations.len(),
            r.deep_view() == result_pairs(named@, service.operations@, i as nat),
            r.len() == reply_count(service.operations@, i as nat),
        decreases service.operations.len() - i,
    {
        let ghost before = r.deep_view();
        match result_pair(named, &service.operations[i]) {
            Option::Some(pair) => {
                r.push(pair);
                assert(r.deep_view() =~= before.push(pair@));
            },
            Option::None => {},
        }
        i = i + 1;
    }
    r
}

fn ok_member(published: &str, value: &Option<String>) -> (r: String)
    ensures
        r@ == ok_member_text(
            published@,
            match value {
                Option::Some(v) => Option::Some(v@),
                Option::None => Option::None,
            },
        ),
{
    let mut r = String::from_str("final class ");
    r.append(published);
    r.append("Ok extends ");
    r.append(published);
    r.append(" {\n  const ");
    r.append(published);
    match value {
        Option::None => {
            r.append("Ok();\n}");
        },
        Option::Some(v) => {
            r.append("Ok(this.value);\n  final ");
            r.append(v.as_str());
            r.append(" value;\n}");
        },
    }
    r
}

fn family(ident: &str, published: &str, ok_member: &str, failure: &str, fault: &str) -> (r: String)
    ensures
        r@ == family_text(ident@, published@, ok_member@, failure@, fault@),
{
    let mut r = String::from_str("/// What `");
    r.append(ident);
    r.append("` answers: the success, the error the operation declared, or a fault it never\n");
    r.append("/// declared.\n");
    r.append("sealed class ");
    r.append(published);
    r.append(" {\n  const ");
    r.append(published);
    r.append("();\n}\n\n");
    r.append(ok_member);
    r.append("\n\n");
    r.append("final class ");
    r.append(published);
    r.append("Operation extends ");
    r.append(published);
    r.append(" {\n  const ");
    r.append(published);
    r.append("Operation(this.error);\n  final ");
    r.append(failure);
    r.append(" error;\n}\n\n");
    r.append("final class ");
    r.append(published);
    r.append("Fault extends ");
    r.append(published);
    r.append(" {\n  const ");
    r.append(published);
    r.append("Fault(this.fault);\n  final ");
    r.append(fault);
    r.append(" fault;\n}");
    r
}

fn result_pair(named: &str, operation: &OperationDef) -> (r: Option<String>)
    ensures
        match r {
            Option::Some(s) => result_pair_text(named@, *operation) == Option::Some(s@),
            Option::None => result_pair_text(named@, *operation) == Option::<Seq<char>>::None,
        },
{
    match &operation.outcome {
        OperationOutcome::OneWay => Option::None,
        OperationOutcome::Reply { error, .. } => {
            let published = result_name(named, operation).unwrap();
            let ok = ok_member(published.as_str(), &operation.dart_success);
            let fault = fault_fields_name(named);
            Option::Some(
                family(
                    operation.ident.as_str(),
                    published.as_str(),
                    ok.as_str(),
                    error.dart.as_str(),
                    fault.as_str(),
                ),
            )
        },
    }
}

} // verus!
