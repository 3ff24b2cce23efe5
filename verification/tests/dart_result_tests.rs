// The `{Service}{Operation}Result` sealed class family, read off the emitted text.

use tixschema::dart_result::emit;
use tixschema::field_def::{FieldDef, FieldDefType};
use tixschema::service::{OperationDef, OperationInputs, OperationOutcome, ServiceDef, TypeRef};

fn reference(name: &str) -> FieldDef {
    FieldDef {
        field_type: FieldDefType::SiblingType(name.to_string(), vec![]),
        array_depth: 0,
        nullable_levels: vec![],
        nullable: false,
        as_number: false,
    }
}

fn unit() -> FieldDef {
    FieldDef {
        field_type: FieldDefType::Tuple(vec![]),
        array_depth: 0,
        nullable_levels: vec![],
        nullable: false,
        as_number: false,
    }
}

fn named_type(name: &str) -> TypeRef {
    TypeRef {
        def: reference(name),
        typescript: name.to_string(),
        zod: format!("{name}Schema"),
        dart: name.to_string(),
        swift: name.to_string(),
        swift_aux: vec![],
    }
}

fn unit_type() -> TypeRef {
    TypeRef {
        def: unit(),
        typescript: "void".to_string(),
        zod: "z.null()".to_string(),
        dart: "void".to_string(),
        swift: "Void".to_string(),
        swift_aux: vec![],
    }
}

fn operation(
    ident: &str,
    wire: &str,
    call: &str,
    input: &str,
    outcome: OperationOutcome,
    dart_success: Option<&str>,
) -> OperationDef {
    OperationDef {
        ident: ident.to_string(),
        wire_name: wire.to_string(),
        ts_name: call.to_string(),
        inputs: OperationInputs::Named(named_type(input)),
        outcome,
        generated_message: None,
        dart_success: dart_success.map(|s| s.to_string()),
    }
}

/// `ConversationClientService`: `window` answers a `WindowPage` or a declared `WindowError`;
/// `purge_conversation` is one-way.
fn conversation_service() -> ServiceDef {
    ServiceDef {
        ident: "ConversationClientService".to_string(),
        operations: vec![
            operation(
                "window",
                "window",
                "window",
                "WindowRequest",
                OperationOutcome::Reply {
                    error: named_type("WindowError"),
                    success: named_type("WindowPage"),
                },
                Some("WindowPage"),
            ),
            operation(
                "purge_conversation",
                "purge-conversation",
                "purgeConversation",
                "ConversationId",
                OperationOutcome::OneWay,
                None,
            ),
        ],
    }
}

/// `PingClientService`: `ping` answers `()` or a declared `PingError`.
fn ping_service() -> ServiceDef {
    ServiceDef {
        ident: "PingClientService".to_string(),
        operations: vec![operation(
            "ping",
            "ping",
            "ping",
            "PingRequest",
            OperationOutcome::Reply { error: named_type("PingError"), success: unit_type() },
            None,
        )],
    }
}

fn dart_result_of(service: ServiceDef) -> Vec<String> {
    emit(&service)
}

/// A service whose `download` streams its body, and whose `download_with_etag` also answers a
/// `header_out` value beside it.
fn stream_service() -> ServiceDef {
    ServiceDef {
        ident: "DownloadClientService".to_string(),
        operations: vec![
            operation(
                "download",
                "download",
                "download",
                "DownloadRequest",
                OperationOutcome::Reply {
                    error: named_type("DownloadError"),
                    success: named_type("Vec<u8>"),
                },
                Some("({String? contentRange, Stream<List<int>> body})"),
            ),
            operation(
                "download_with_etag",
                "download-with-etag",
                "downloadWithEtag",
                "DownloadRequest",
                OperationOutcome::Reply {
                    error: named_type("DownloadError"),
                    success: named_type("Vec<u8>"),
                },
                Some("(({String? contentRange, Stream<List<int>> body}), String)"),
            ),
        ],
    }
}

/// A service whose `fetch` answers its bytes beside two `header_out` values.
fn bytes_header_out_service() -> ServiceDef {
    ServiceDef {
        ident: "BytesClientService".to_string(),
        operations: vec![operation(
            "fetch",
            "fetch",
            "fetch",
            "FetchRequest",
            OperationOutcome::Reply { error: named_type("FetchError"), success: named_type("Vec<u8>") },
            Some("(List<int>, String, String)"),
        )],
    }
}

#[test]
fn a_reply_operation_gets_a_sealed_base_and_three_final_subclasses() {
    let written = dart_result_of(conversation_service());
    let joined = written.join("\n\n");
    assert!(
        joined.contains(
            "/// What `window` answers: the success, the error the operation declared, or a fault \
             it never\n\
             /// declared.\n\
             sealed class ConversationClientServiceWindowResult {\n  \
             const ConversationClientServiceWindowResult();\n}"
        ),
        "the sealed base carries a doc line naming the operation it answers for. Got: {joined}"
    );
    assert!(
        joined.contains(
            "final class ConversationClientServiceWindowResultOk extends \
             ConversationClientServiceWindowResult {\n  \
             const ConversationClientServiceWindowResultOk(this.value);\n  \
             final WindowPage value;\n}"
        ),
        "the success arm carries the operation's own declared success type. Got: {joined}"
    );
    assert!(
        joined.contains(
            "final class ConversationClientServiceWindowResultOperation extends \
             ConversationClientServiceWindowResult {\n  \
             const ConversationClientServiceWindowResultOperation(this.error);\n  \
             final WindowError error;\n}"
        ),
        "the declared-error arm carries the operation's own declared error type. Got: {joined}"
    );
    assert!(
        joined.contains(
            "final class ConversationClientServiceWindowResultFault extends \
             ConversationClientServiceWindowResult {\n  \
             const ConversationClientServiceWindowResultFault(this.fault);\n  \
             final ConversationClientServiceFaultFields fault;\n}"
        ),
        "the fault arm carries the same fault fields every other Dart surface answers faults \
         through. Got: {joined}"
    );
}

#[test]
fn the_one_way_operation_gets_no_pair() {
    let written = dart_result_of(conversation_service());
    assert_eq!(
        written.len(),
        1,
        "`purge_conversation` is one-way and declared no reply to join into a pair. Got: \
         {written:?}"
    );
    assert!(
        !written
            .iter()
            .any(|pair| pair.contains("PurgeConversation")),
        "got: {written:?}"
    );
}

#[test]
fn the_pair_carries_no_codec() {
    let written = dart_result_of(conversation_service()).join("\n\n");
    for named in ["fromJson", "toJson"] {
        assert!(
            !written.contains(named),
            "the pair is caller-shaped, built by the client, never a wire shape a codec reads or \
             writes. Got: {written}"
        );
    }
}

#[test]
fn a_stream_operations_ok_carries_the_same_record_the_rest_client_answers_with() {
    let written = dart_result_of(stream_service()).join("\n\n");
    assert!(
        written.contains("final ({String? contentRange, Stream<List<int>> body}) value;"),
        "a bare streamed success shares its spelling with `dart_http_client`'s own return type, \
         through the shared `dart_success_type`. Got: {written}"
    );
    assert!(
        written.contains("final (({String? contentRange, Stream<List<int>> body}), String) value;"),
        "a `header_out` operation's own success wraps the streamed record in a tuple, exactly as \
         the client's own return type does. Got: {written}"
    );
}

#[test]
fn a_bytes_operation_with_header_out_shares_its_success_type_with_the_client() {
    let written = dart_result_of(bytes_header_out_service()).join("\n\n");
    assert!(
        written.contains("final (List<int>, String, String) value;"),
        "got: {written}"
    );
}

#[test]
fn a_unit_success_gets_a_field_less_ok_member() {
    let written = dart_result_of(ping_service()).join("\n\n");
    assert!(
        written.contains(
            "final class PingClientServicePingResultOk extends PingClientServicePingResult {\n  \
             const PingClientServicePingResultOk();\n}"
        ),
        "got: {written}"
    );
    assert!(!written.contains("void value"), "got: {written}");
}
