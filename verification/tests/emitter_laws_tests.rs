// What every emitter promises, checked on concrete values: exact renderings of each formula, the
// edge cases each one handles, and one instance of each law the library proves.

use tixschema::dart_result;
use tixschema::field_def::{FieldDef, FieldDefType};
use tixschema::item::{AliasItem, EnumItem, EnumTagAttrs, Item, ItemFields, StructItem, VariantItem};
use tixschema::kotlin::{
    KotlinState, kotlin_refused_width, kotlin_schema_dispatch, kotlin_typename, lookup_kotlin_name,
    register_kotlin_name,
};
use tixschema::kotlin_ws_client;
use tixschema::message::{ScalarKind, binding_params, decode_ts_expr, schema, typename};
use tixschema::names::NameRegistry;
use tixschema::rename_rule::{RenameRule, is_ascii_led, resolve_rename_rule, to_snake_case};
use tixschema::service::{
    Binding, GeneratedMessage, HttpShape, OperationDef, OperationInputs, OperationOutcome,
    ServiceDef, TypeRef, fault_fields_name, result_name,
};
use tixschema::swift_type::swift_typename;
use tixschema::swift_ws_client;
use tixschema::text::decimal_text;
use tixschema::ws_server;

fn of(field_type: FieldDefType) -> FieldDef {
    FieldDef { field_type, array_depth: 0, nullable_levels: vec![], nullable: false, as_number: false }
}

fn leveled(field_type: FieldDefType, array_depth: usize, nullable_levels: Vec<usize>) -> FieldDef {
    FieldDef { field_type, array_depth, nullable_levels, nullable: false, as_number: false }
}

fn sibling(name: &str) -> FieldDefType {
    FieldDefType::SiblingType(name.to_string(), vec![])
}

fn named_type(name: &str) -> TypeRef {
    TypeRef {
        def: of(sibling(name)),
        typescript: name.to_string(),
        zod: format!("{name}Schema"),
        dart: name.to_string(),
        swift: name.to_string(),
        swift_aux: vec![],
    }
}

fn operation(ident: &str, inputs: OperationInputs, outcome: OperationOutcome) -> OperationDef {
    OperationDef {
        ident: ident.to_string(),
        wire_name: ident.replace('_', "-"),
        ts_name: RenameRule::CamelCase.apply_to_field(ident),
        inputs,
        outcome,
        generated_message: None,
        dart_success: None,
    }
}

fn reply(success: &str, error: &str) -> OperationOutcome {
    OperationOutcome::Reply { error: named_type(error), success: named_type(success) }
}

fn service(ident: &str, operations: Vec<OperationDef>) -> ServiceDef {
    ServiceDef { ident: ident.to_string(), operations }
}

#[test]
fn decimal_text_writes_every_digit() {
    assert_eq!(decimal_text(0), "0");
    assert_eq!(decimal_text(7), "7");
    assert_eq!(decimal_text(1024), "1024");
    assert_eq!(decimal_text(u64::MAX), "18446744073709551615");
}

#[test]
fn every_rename_rule_on_a_variant_and_a_field() {
    let cases = [
        ("lowercase", "rateLimited", "ratelimited", "retry_after_ms"),
        ("UPPERCASE", "RATELIMITED", "RATELIMITED", "RETRY_AFTER_MS"),
        ("PascalCase", "RateLimited", "RateLimited", "RetryAfterMs"),
        ("camelCase", "rateLimited", "rateLimited", "retryAfterMs"),
        ("snake_case", "rate_limited", "rate_limited", "retry_after_ms"),
        ("SCREAMING_SNAKE_CASE", "RATE_LIMITED", "RATE_LIMITED", "RETRY_AFTER_MS"),
        ("kebab-case", "rate-limited", "rate-limited", "retry-after-ms"),
        ("SCREAMING-KEBAB-CASE", "RATE-LIMITED", "RATE-LIMITED", "RETRY-AFTER-MS"),
    ];
    for (spelling, _, variant, field) in cases {
        let rule = resolve_rename_rule(Some(spelling));
        assert_eq!(rule.apply_to_variant("RateLimited"), variant, "{spelling}");
        assert_eq!(rule.apply_to_field("retry_after_ms"), field, "{spelling}");
    }
    assert_eq!(resolve_rename_rule(None), RenameRule::Verbatim);
    assert_eq!(resolve_rename_rule(Some("Title Case")), RenameRule::Verbatim);
    assert_eq!(RenameRule::Verbatim.apply_to_variant("RateLimited"), "RateLimited");
}

#[test]
fn snake_case_breaks_before_every_upper_case_letter() {
    assert_eq!(to_snake_case("ConversationClientService"), "conversation_client_service");
    assert_eq!(to_snake_case("HTTPServer"), "h_t_t_p_server");
    assert_eq!(to_snake_case("already_snake"), "already_snake");
}

#[test]
fn ascii_led_reads_only_the_first_character() {
    assert!(is_ascii_led("Widget"));
    assert!(!is_ascii_led(""));
    assert!(!is_ascii_led("Éclair"));
    assert!(is_ascii_led("wÉ"));
}

#[test]
fn a_registered_name_reads_back_and_a_later_registration_wins() {
    let mut st = KotlinState::new();
    assert_eq!(lookup_kotlin_name(&st, "Widget"), None);
    register_kotlin_name(&mut st, "Widget", "RenamedWidget");
    register_kotlin_name(&mut st, "Gadget", "Gadget");
    assert_eq!(lookup_kotlin_name(&st, "Widget"), Some("RenamedWidget".to_string()));
    register_kotlin_name(&mut st, "Widget", "Widget2");
    assert_eq!(lookup_kotlin_name(&st, "Widget"), Some("Widget2".to_string()));
    assert_eq!(lookup_kotlin_name(&st, "Gadget"), Some("Gadget".to_string()));
    let mut names = NameRegistry::new();
    names.register("Slot", "SlotKind");
    assert_eq!(names.lookup("Slot"), Some("SlotKind".to_string()));
    assert_eq!(names.lookup("slot"), None);
}

#[test]
fn a_reference_to_a_registered_sibling_uses_its_published_name() {
    let mut st = KotlinState::new();
    let reference = of(sibling("Widget"));
    assert_eq!(kotlin_typename(&mut st, &reference), "Widget");
    register_kotlin_name(&mut st, "Widget", "RenamedWidget");
    assert_eq!(kotlin_typename(&mut st, &reference), "RenamedWidget");
}

#[test]
fn kotlin_list_levels_and_nullability() {
    let mut st = KotlinState::new();
    // Option<Vec<Option<i32>>>: the inner item and the field itself are nullable.
    let field = leveled(FieldDefType::I32, 1, vec![0, 1]);
    assert_eq!(kotlin_typename(&mut st, &field), "List<Int?>?");
    // Vec<Vec<String>>
    let nested = leveled(FieldDefType::String, 2, vec![]);
    assert_eq!(kotlin_typename(&mut st, &nested), "List<List<String>>");
    // HashSet<u8> travels as a plain list of its element.
    let set = of(FieldDefType::SiblingType("HashSet".to_string(), vec![of(FieldDefType::U8)]));
    assert_eq!(kotlin_typename(&mut st, &set), "List<UByte>");
    // A generic sibling carries its arguments.
    let page = of(FieldDefType::SiblingType(
        "Page".to_string(),
        vec![of(FieldDefType::String), leveled(FieldDefType::I64, 0, vec![0])],
    ));
    assert_eq!(kotlin_typename(&mut st, &page), "Page<String, Long?>");
    let dated = FieldDef { as_number: true, ..of(FieldDefType::DateTime) };
    assert_eq!(kotlin_typename(&mut st, &dated), "Long");
    assert_eq!(kotlin_typename(&mut st, &of(FieldDefType::DateTime)), "String");
    assert_eq!(kotlin_typename(&mut st, &of(FieldDefType::Unknown)), "JsonElement");
}

#[test]
fn rendering_a_tuple_only_queues_a_numbered_wrapper() {
    let mut st = KotlinState::new();
    register_kotlin_name(&mut st, "Widget", "RenamedWidget");
    let pair = of(FieldDefType::Tuple(vec![of(FieldDefType::String), of(sibling("Widget"))]));
    assert_eq!(kotlin_typename(&mut st, &pair), "KotlinTuple1");
    assert_eq!(st.tuple_aux.len(), 1);
    assert!(st.tuple_aux[0].contains("data class KotlinTuple1(val slot0: String, val slot1: RenamedWidget)"));
    let first = st.tuple_aux[0].clone();
    assert_eq!(kotlin_typename(&mut st, &pair), "KotlinTuple2");
    assert_eq!(st.tuple_aux.len(), 2);
    assert_eq!(st.tuple_aux[0], first);
    assert_eq!(st.tuple_counter, 2);
    assert_eq!(lookup_kotlin_name(&st, "Widget"), Some("RenamedWidget".to_string()));
}

#[test]
fn a_tuple_free_type_renders_alike_and_queues_nothing() {
    let mut fresh = KotlinState::new();
    let mut busy = KotlinState::new();
    let pair = of(FieldDefType::Tuple(vec![of(FieldDefType::U8), of(FieldDefType::U16)]));
    kotlin_typename(&mut busy, &pair);
    let field = of(FieldDefType::MapOf(
        Box::new(of(FieldDefType::String)),
        Box::new(leveled(FieldDefType::Boolean, 1, vec![0])),
    ));
    let queued = busy.tuple_aux.len();
    assert_eq!(kotlin_typename(&mut fresh, &field), kotlin_typename(&mut busy, &field));
    assert_eq!(fresh.tuple_aux.len(), 0);
    assert_eq!(busy.tuple_aux.len(), queued);
    assert_eq!(kotlin_typename(&mut fresh, &field), "Map<String, List<Boolean?>>");
}

#[test]
fn kotlin_refuses_the_u64_and_usize_widths_at_any_depth() {
    assert_eq!(kotlin_refused_width(&of(FieldDefType::U64)), Some("u64"));
    assert_eq!(kotlin_refused_width(&of(FieldDefType::Usize)), Some("usize"));
    assert_eq!(kotlin_refused_width(&leveled(FieldDefType::U64, 2, vec![1])), Some("u64"));
    let in_map = of(FieldDefType::MapOf(Box::new(of(FieldDefType::String)), Box::new(of(FieldDefType::Usize))));
    assert_eq!(kotlin_refused_width(&in_map), Some("usize"));
    let in_tuple = of(FieldDefType::Tuple(vec![of(FieldDefType::I8), of(FieldDefType::U64), of(FieldDefType::Usize)]));
    assert_eq!(kotlin_refused_width(&in_tuple), Some("u64"));
    let in_generic = of(FieldDefType::SiblingType("Page".to_string(), vec![of(FieldDefType::Usize)]));
    assert_eq!(kotlin_refused_width(&in_generic), Some("usize"));
    for fine in [FieldDefType::U32, FieldDefType::I64, FieldDefType::Isize, FieldDefType::String] {
        assert_eq!(kotlin_refused_width(&of(fine)), None);
    }
}

#[test]
fn swift_type_names_follow_the_width_table_and_list_levels() {
    let names = NameRegistry::new();
    let cases = [
        (FieldDefType::Boolean, "Bool"),
        (FieldDefType::U8, "UInt8"),
        (FieldDefType::U64, "UInt64"),
        (FieldDefType::I32, "Int32"),
        (FieldDefType::Usize, "Int"),
        (FieldDefType::F32, "Float"),
        (FieldDefType::F64, "Double"),
        (FieldDefType::Char, "String"),
        (FieldDefType::DateTime, "Date"),
        (FieldDefType::NaiveDate, "String"),
        (FieldDefType::Unknown, "any Sendable"),
    ];
    for (ft, expected) in cases {
        assert_eq!(swift_typename(&names, &of(ft)), expected);
    }
    assert_eq!(swift_typename(&names, &leveled(FieldDefType::I32, 1, vec![0, 1])), "[Int32?]?");
    let map = of(FieldDefType::MapOf(Box::new(of(FieldDefType::String)), Box::new(of(FieldDefType::I64))));
    assert_eq!(swift_typename(&names, &map), "[String: Int64]");
    let tuple = of(FieldDefType::Tuple(vec![of(FieldDefType::String), of(FieldDefType::Boolean)]));
    assert_eq!(swift_typename(&names, &tuple), "(String, Bool)");
    let set = leveled(
        FieldDefType::SiblingType("BTreeSet".to_string(), vec![of(FieldDefType::String)]),
        1,
        vec![],
    );
    assert_eq!(swift_typename(&names, &set), "[[String]]");
}

#[test]
fn swift_resolves_a_sibling_through_its_registered_name() {
    let mut names = NameRegistry::new();
    names.register("Widget", "RenamedWidget");
    let page = of(FieldDefType::SiblingType("Page".to_string(), vec![of(sibling("Widget"))]));
    assert_eq!(swift_typename(&names, &page), "Page<RenamedWidget>");
}

#[test]
fn the_message_is_named_and_validated_the_same_way_on_both_sides() {
    let named = operation("window", OperationInputs::Named(named_type("WindowRequest")), reply("WindowPage", "WindowError"));
    assert_eq!(typename(&named), "WindowRequest");
    assert_eq!(schema(&named), "WindowRequestSchema");
    let mut generated = operation("ping", OperationInputs::Generated, reply("Pong", "PingError"));
    generated.generated_message = Some(GeneratedMessage {
        ident: "PingMessage".to_string(),
        def: of(sibling("PingMessage")),
        zod: "PingMessageSchema".to_string(),
        swift: "PingMessage".to_string(),
        swift_aux: vec![],
    });
    assert_eq!(typename(&generated), "PingMessage");
    assert_eq!(schema(&generated), "PingMessageSchema");
    let empty = operation("reset", OperationInputs::Empty, OperationOutcome::OneWay);
    assert_eq!(typename(&empty), "unknown");
    assert_eq!(schema(&empty), "");
}

#[test]
fn bound_headers_come_before_bound_parts_each_camel_cased() {
    let shape = HttpShape {
        header_in: vec![Binding { parameter: "if_match".to_string(), ty: named_type("string") }],
        multipart_parts: vec![
            Binding { parameter: "avatar_image".to_string(), ty: named_type("Blob") },
            Binding { parameter: "caption".to_string(), ty: named_type("string | undefined") },
        ],
    };
    assert_eq!(
        binding_params(&shape),
        vec![
            ("ifMatch".to_string(), "string".to_string()),
            ("avatarImage".to_string(), "Blob".to_string()),
            ("caption".to_string(), "string | undefined".to_string()),
        ]
    );
    let none = HttpShape { header_in: vec![], multipart_parts: vec![] };
    assert!(binding_params(&none).is_empty());
}

#[test]
fn a_raw_wire_string_is_coerced_by_its_scalar_and_split_per_list_level() {
    assert_eq!(decode_ts_expr(0, ScalarKind::Text, "raw", "conv"), "raw");
    assert_eq!(decode_ts_expr(0, ScalarKind::Number, "raw", "conv"), "convHttpCoerceNumber(raw)");
    assert_eq!(
        decode_ts_expr(0, ScalarKind::Bool, "raw", "conv"),
        "(raw === \"true\" ? true : raw === \"false\" ? false : raw)"
    );
    assert_eq!(
        decode_ts_expr(1, ScalarKind::Number, "query.ids", "conv"),
        "(query.ids).split(\",\").map((piece: string) => convHttpCoerceNumber(piece))"
    );
    assert_eq!(
        decode_ts_expr(2, ScalarKind::Text, "raw", "conv"),
        "(raw).split(\",\").map((piece: string) => (piece).split(\",\").map((piece: string) => piece))"
    );
}

#[test]
fn the_result_and_fault_names_follow_the_service_and_operation() {
    let window = operation("window_page", OperationInputs::Empty, reply("WindowPage", "WindowError"));
    assert_eq!(
        result_name("ConversationClientService", &window),
        Some("ConversationClientServiceWindowPageResult".to_string())
    );
    let purge = operation("purge", OperationInputs::Empty, OperationOutcome::OneWay);
    assert_eq!(result_name("ConversationClientService", &purge), None);
    assert_eq!(fault_fields_name("Ping"), "PingFaultFields");
}

#[test]
fn dart_gets_one_family_per_reply_operation_in_order() {
    let svc = service(
        "Shop",
        vec![
            operation("buy", OperationInputs::Empty, reply("Receipt", "BuyError")),
            operation("notify_stock", OperationInputs::Empty, OperationOutcome::OneWay),
            operation("refund", OperationInputs::Empty, reply("Receipt", "RefundError")),
        ],
    );
    let families = dart_result::emit(&svc);
    assert_eq!(families.len(), 2);
    assert!(families[0].starts_with("/// What `buy` answers:"));
    assert!(families[0].contains("final class ShopBuyResultOk extends ShopBuyResult {\n  const ShopBuyResultOk();\n}"));
    assert!(families[0].contains("final BuyError error;"));
    assert!(families[1].contains("sealed class ShopRefundResult {"));
    assert!(families[1].contains("final ShopFaultFields fault;"));
    let one_way_only = service("Bell", vec![operation("ring", OperationInputs::Empty, OperationOutcome::OneWay)]);
    assert!(dart_result::emit(&one_way_only).is_empty());
}

#[test]
fn the_kotlin_ws_refusal_appears_only_beside_a_one_way_operation() {
    let replies = service("Shop", vec![operation("buy", OperationInputs::Empty, reply("Receipt", "BuyError"))]);
    let mut st = KotlinState::new();
    let written = kotlin_ws_client::emit(&mut st, &replies);
    assert_eq!(written.len(), 13);
    assert!(!written.join("\n\n").contains("WsRefusal"));
    let both = service(
        "Shop",
        vec![
            operation("buy", OperationInputs::Empty, reply("Receipt", "BuyError")),
            operation("notify_stock", OperationInputs::Empty, OperationOutcome::OneWay),
        ],
    );
    let written = kotlin_ws_client::emit(&mut st, &both);
    assert_eq!(written.len(), 14);
    assert!(written[3].starts_with("/// What a one-way `Shop` `ws_rpc` method throws"));
}

#[test]
fn a_kotlin_ws_operation_naming_no_message_takes_unit_or_the_declared_one() {
    let mut generated = operation("buy", OperationInputs::Generated, reply("Receipt", "BuyError"));
    generated.generated_message = Some(GeneratedMessage {
        ident: "BuyMessage".to_string(),
        def: of(sibling("BuyMessage")),
        zod: "BuyMessageSchema".to_string(),
        swift: "BuyMessage".to_string(),
        swift_aux: vec![],
    });
    let svc = service(
        "Shop",
        vec![generated, operation("reset", OperationInputs::Empty, OperationOutcome::OneWay)],
    );
    let mut st = KotlinState::new();
    register_kotlin_name(&mut st, "Receipt", "ShopReceipt");
    let written = kotlin_ws_client::emit(&mut st, &svc).join("\n\n");
    assert!(written.contains("suspend fun buy(req: BuyMessage): ShopBuyResult {"), "got: {written}");
    assert!(written.contains("suspend fun reset(req: Unit) {"), "got: {written}");
    assert!(written.contains("serializer<ShopReceipt>()"), "got: {written}");
    assert!(written.contains("  suspend fun buy(req: BuyMessage): ShopBuyResult\n  suspend fun reset(req: Unit)\n}"), "got: {written}");
}

#[test]
fn a_kotlin_ws_tuple_message_queues_one_wrapper_per_rendering() {
    let pair = TypeRef {
        def: of(FieldDefType::Tuple(vec![of(FieldDefType::String), of(FieldDefType::I32)])),
        typescript: "[string, number]".to_string(),
        zod: "z.tuple([z.string(), z.number()])".to_string(),
        dart: "(String, int)".to_string(),
        swift: "TagReq".to_string(),
        swift_aux: vec!["struct TagReq: Codable { let slot0: String; let slot1: Int32 }".to_string()],
    };
    let svc = service("Shop", vec![operation("tag", OperationInputs::Named(pair), OperationOutcome::OneWay)]);
    let mut st = KotlinState::new();
    let written = kotlin_ws_client::emit(&mut st, &svc).join("\n\n");
    assert!(written.contains("suspend fun tag(req: KotlinTuple1) {"), "got: {written}");
    assert!(written.contains("  suspend fun tag(req: KotlinTuple2)"), "got: {written}");
    assert!(written.contains("serializer<KotlinTuple3>(), payload ?: JsonNull"), "got: {written}");
    assert_eq!(st.tuple_aux.len(), 3);
}

#[test]
fn the_swift_client_names_string_for_an_operation_with_no_message() {
    let svc = service("Shop", vec![operation("reset", OperationInputs::Empty, OperationOutcome::OneWay)]);
    let written = swift_ws_client::emit(&svc);
    assert_eq!(written.len(), 7);
    assert!(written[5].contains("public func reset(_ req: String) async throws {"));
    assert!(written[6].contains("public typealias ShopWsClient = ShopWsTransport"));
}

#[test]
fn the_ws_server_is_the_same_four_declarations_for_any_name() {
    let written = ws_server::emit(&service("Shop", vec![]));
    assert_eq!(written.len(), 4);
    assert!(written[0].contains("export type ShopWsServerSocket = ShopWsSocket & {"));
    assert!(written[1].contains("export type ShopWsConnection = {"));
    assert!(written[2].contains("onFault: (fault: ShopFault, connection: ShopWsConnection) => void;"));
    assert!(written[3].starts_with("export function createShopWsServer<Ctx>(\n"));
    assert!(written[3].ends_with("  };\n}"));
}

#[test]
fn a_renamed_struct_and_every_alias_republish_their_ident_but_a_renamed_enum_does_not() {
    let mut st = KotlinState::new();
    let widget = Item::Struct(StructItem {
        ident: "Widget".to_string(),
        generics: vec!["T".to_string()],
        rename_all: None,
        transparent: false,
        fields: ItemFields::Unit,
    });
    let text = kotlin_schema_dispatch(&mut st, &widget, Some("Gizmo")).unwrap().source;
    assert!(text.ends_with(" typealias Widget<T> = Gizmo<T>;"), "got: {text}");
    let alias = Item::Type(AliasItem { ident: "Id".to_string(), generics: vec![], target: of(FieldDefType::String) });
    let text = kotlin_schema_dispatch(&mut st, &alias, None).unwrap().source;
    assert_eq!(text, "typealias IdType = String; typealias Id = IdType;");
    let same = Item::Struct(StructItem {
        ident: "Plain".to_string(),
        generics: vec![],
        rename_all: None,
        transparent: false,
        fields: ItemFields::Unit,
    });
    let text = kotlin_schema_dispatch(&mut st, &same, Some("Plain")).unwrap().source;
    assert_eq!(text, "@Serializable class Plain");
    let level = Item::Enum(EnumItem {
        ident: "Level".to_string(),
        generics: vec![],
        attrs: EnumTagAttrs { content: None, rename_all: None, rename_all_fields: None, tag: None, untagged: false },
        variants: vec![VariantItem { ident: "Low".to_string(), rename: None, fields: ItemFields::Unit }],
    });
    let text = kotlin_schema_dispatch(&mut st, &level, Some("Tier")).unwrap().source;
    assert!(text.contains("enum class Tier"), "got: {text}");
    assert!(!text.contains("typealias Level"), "got: {text}");
    assert_eq!(lookup_kotlin_name(&st, "Level"), Some("Tier".to_string()));
    assert_eq!(kotlin_schema_dispatch(&mut st, &Item::Other, None).map(|m| m.source), None);
}

#[test]
fn a_nested_tuple_queues_one_wrapper_per_rendering_numbered_in_sequence() {
    let mut st = KotlinState::new();
    let inner = of(FieldDefType::Tuple(vec![of(FieldDefType::U8), of(FieldDefType::U8)]));
    let outer = of(FieldDefType::Tuple(vec![inner, of(FieldDefType::String)]));
    // The outer wrapper takes the next number; its slots, encoder and decoder each render the
    // inner tuple once more.
    assert_eq!(kotlin_typename(&mut st, &outer), "KotlinTuple1");
    assert_eq!(st.tuple_aux.len(), 4);
    assert_eq!(st.tuple_counter, 4);
    assert!(st.tuple_aux[3].contains("data class KotlinTuple1(val slot0: KotlinTuple2, val slot1: String)"));
    assert!(st.tuple_aux[3].contains("serializer<KotlinTuple3>()"));
    assert!(st.tuple_aux[3].contains("serializer<KotlinTuple4>()"));
}

#[test]
fn the_wrapper_number_wraps_after_u32_max() {
    let mut st = KotlinState::new();
    st.tuple_counter = u32::MAX;
    let pair = of(FieldDefType::Tuple(vec![of(FieldDefType::U8), of(FieldDefType::U8)]));
    assert_eq!(kotlin_typename(&mut st, &pair), "KotlinTuple0");
    assert_eq!(st.tuple_counter, 0);
}

#[test]
fn a_bare_single_slot_tuple_struct_publishes_as_a_value_class() {
    let meters = Item::Struct(StructItem {
        ident: "Meters".to_string(),
        generics: vec![],
        rename_all: None,
        transparent: false,
        fields: ItemFields::Unnamed(vec![tixschema::item::ItemField {
            rust_name: String::new(),
            rename: None,
            def: of(FieldDefType::F64),
            absent_from_wire: false,
            omits_key: false,
        }]),
    });
    let mut st = KotlinState::new();
    let module = kotlin_schema_dispatch(&mut st, &meters, None).unwrap();
    assert_eq!(module.module_ident, "meters_kotlin");
    assert_eq!(module.source, "@JvmInline @Serializable value class Meters(val value: Double)");
}

#[test]
fn an_untagged_enum_never_renames_its_variants_so_any_name_is_ready() {
    let untagged = Item::Enum(EnumItem {
        ident: "Reading".to_string(),
        generics: vec![],
        attrs: EnumTagAttrs {
            content: None,
            rename_all: Some("camelCase".to_string()),
            rename_all_fields: None,
            tag: None,
            untagged: true,
        },
        variants: vec![VariantItem {
            ident: "Ébauche".to_string(),
            rename: None,
            fields: ItemFields::Unnamed(vec![tixschema::item::ItemField {
                rust_name: String::new(),
                rename: None,
                def: of(FieldDefType::String),
                absent_from_wire: false,
                omits_key: false,
            }]),
        }],
    });
    assert!(tixschema::kotlin::is_item_ready(&untagged));
    let mut st = KotlinState::new();
    let text = kotlin_schema_dispatch(&mut st, &untagged, None).unwrap().source;
    assert!(text.contains("value class ReadingÉbauche(val value: String)"), "got: {text}");
    let tagged = Item::Enum(EnumItem {
        ident: "Reading".to_string(),
        generics: vec![],
        attrs: EnumTagAttrs {
            content: None,
            rename_all: Some("camelCase".to_string()),
            rename_all_fields: None,
            tag: Some("kind".to_string()),
            untagged: false,
        },
        variants: vec![VariantItem { ident: "Ébauche".to_string(), rename: None, fields: ItemFields::Unit }],
    });
    assert!(!tixschema::kotlin::is_item_ready(&tagged));
}

#[test]
fn the_swift_client_publishes_each_types_declarations_after_the_actor() {
    let mut input = named_type("TagReq");
    input.swift_aux = vec!["struct TagReqA {}".to_string()];
    let mut success = named_type("Page");
    success.swift = "ShopTagSuccess".to_string();
    success.swift_aux = vec!["struct ShopTagSuccess {}".to_string(), "struct ShopTagSuccess2 {}".to_string()];
    let mut error = named_type("TagError");
    error.swift_aux = vec!["struct TagErrorA {}".to_string()];
    let svc = service(
        "Shop",
        vec![operation(
            "tag",
            OperationInputs::Named(input),
            OperationOutcome::Reply { error, success },
        )],
    );
    let written = swift_ws_client::emit(&svc);
    assert_eq!(written.len(), 11);
    assert!(written[5].contains("public func tag(_ req: TagReq) async -> Result<ShopTagSuccess, ShopTagFailure> {"));
    assert_eq!(
        written[6..10].to_vec(),
        vec![
            "struct TagReqA {}".to_string(),
            "struct ShopTagSuccess {}".to_string(),
            "struct ShopTagSuccess2 {}".to_string(),
            "struct TagErrorA {}".to_string(),
        ]
    );
    assert!(written[10].contains("public typealias ShopWsClient = ShopWsTransport"));
}

#[test]
fn a_field_is_decoded_by_its_list_levels_and_scalar_kind() {
    let ids = leveled(FieldDefType::U32, 1, vec![1]);
    assert_eq!(
        tixschema::message::decode_ts_expr_of(&ids, "raw", "p"),
        "(raw).split(\",\").map((piece: string) => pHttpCoerceNumber(piece))"
    );
    let flag = leveled(FieldDefType::Boolean, 0, vec![0]);
    assert_eq!(
        tixschema::message::decode_ts_expr_of(&flag, "raw", "p"),
        "(raw === \"true\" ? true : raw === \"false\" ? false : raw)"
    );
    assert_eq!(tixschema::message::decode_ts_expr_of(&of(sibling("Slot")), "raw", "p"), "raw");
}

#[test]
fn the_kotlin_ws_client_publishes_one_transport_and_ends_with_the_four_helpers() {
    let svc = service(
        "Shop",
        vec![
            operation("buy", OperationInputs::Empty, reply("Receipt", "BuyError")),
            operation("notify_stock", OperationInputs::Empty, OperationOutcome::OneWay),
        ],
    );
    let mut st = KotlinState::new();
    let written = kotlin_ws_client::emit(&mut st, &svc);
    let transports = written.iter().filter(|item| item.contains("class ShopWsTransport(")).count();
    assert_eq!(transports, 1);
    assert!(written[written.len() - 10].contains("class ShopWsTransport("));
    let tail: Vec<&String> = written.iter().rev().take(4).rev().collect();
    for (item, helper) in tail.iter().zip([
        "shopWsTransportFailure",
        "shopWsFailedValidation",
        "shopWsUnknownOperation",
        "shopWsHandlerPanic",
    ]) {
        assert!(item.contains(&format!("private fun {helper}(operation: String, detail: String)")), "got: {item}");
    }
}

#[test]
fn only_the_name_a_bare_field_resolves_to_can_end_a_type_name_in_a_question_mark() {
    let mut st = KotlinState::new();
    register_kotlin_name(&mut st, "Odd", "Odd?");
    let listed = leveled(sibling("Odd"), 1, vec![]);
    assert_eq!(kotlin_typename(&mut st, &listed), "List<Odd?>");
    let optional_plain = leveled(sibling("Plain"), 0, vec![0]);
    assert_eq!(kotlin_typename(&mut st, &optional_plain), "Plain?");
    assert_eq!(kotlin_typename(&mut st, &of(sibling("Plain"))), "Plain");
    assert_eq!(kotlin_typename(&mut st, &of(sibling("Odd"))), "Odd?");
}

#[test]
fn a_tuple_of_plain_elements_queues_exactly_its_own_declaration() {
    let mut st = KotlinState::new();
    st.tuple_counter = 6;
    let pair = of(FieldDefType::Tuple(vec![of(FieldDefType::String), of(FieldDefType::I64)]));
    assert_eq!(kotlin_typename(&mut st, &pair), "KotlinTuple7");
    assert_eq!(st.tuple_counter, 7);
    assert_eq!(st.tuple_aux.len(), 1);
    assert!(st.tuple_aux[0].contains("data class KotlinTuple7(val slot0: String, val slot1: Long)"));
    assert!(st.tuple_aux[0].contains("buildJsonArray { "));
}
