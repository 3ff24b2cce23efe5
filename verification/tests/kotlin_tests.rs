// The Kotlin type and `kotlinx.serialization` codec emitter, read off the text each declared
// item publishes from its `{snake_case}_kotlin` module.

use tixschema::field_def::{FieldDef, FieldDefType};
use tixschema::item::{
    AliasItem, EnumItem, EnumTagAttrs, Item, ItemField, ItemFields, StructItem, VariantItem,
};
use tixschema::kotlin::{KotlinState, is_item_ready, kotlin_schema_dispatch};

fn of(field_type: FieldDefType) -> FieldDef {
    FieldDef { field_type, array_depth: 0, nullable_levels: vec![], nullable: false, as_number: false }
}

fn optional(field_type: FieldDefType) -> FieldDef {
    FieldDef { field_type, array_depth: 0, nullable_levels: vec![0], nullable: false, as_number: false }
}

fn list(field_type: FieldDefType) -> FieldDef {
    FieldDef { field_type, array_depth: 1, nullable_levels: vec![], nullable: false, as_number: false }
}

fn sibling(name: &str) -> FieldDefType {
    FieldDefType::SiblingType(name.to_string(), vec![])
}

fn map(key: FieldDefType, value: FieldDefType) -> FieldDefType {
    FieldDefType::MapOf(Box::new(of(key)), Box::new(of(value)))
}

fn field(rust_name: &str, def: FieldDef) -> ItemField {
    ItemField { rust_name: rust_name.to_string(), rename: None, def, absent_from_wire: false, omits_key: false }
}

fn slot(def: FieldDef) -> ItemField {
    field("", def)
}

fn structure(ident: &str, fields: ItemFields) -> Item {
    Item::Struct(StructItem {
        ident: ident.to_string(),
        generics: vec![],
        rename_all: None,
        transparent: false,
        fields,
    })
}

fn variant(ident: &str, fields: ItemFields) -> VariantItem {
    VariantItem { ident: ident.to_string(), rename: None, fields }
}

fn attrs(tag: Option<&str>, content: Option<&str>, rename_all: Option<&str>, untagged: bool) -> EnumTagAttrs {
    EnumTagAttrs {
        content: content.map(|s| s.to_string()),
        rename_all: rename_all.map(|s| s.to_string()),
        rename_all_fields: None,
        tag: tag.map(|s| s.to_string()),
        untagged,
    }
}

fn enumeration(ident: &str, attrs: EnumTagAttrs, variants: Vec<VariantItem>) -> Item {
    Item::Enum(EnumItem { ident: ident.to_string(), generics: vec![], attrs, variants })
}

/// The text `item` publishes, under `name_override`, from a fresh emitter state.
fn kotlin_of(item: Item, name_override: Option<&str>) -> String {
    let mut st = KotlinState::new();
    kotlin_in(&mut st, item, name_override)
}

/// The text `item` publishes, under `name_override`, from the emitter state `st`.
fn kotlin_in(st: &mut KotlinState, item: Item, name_override: Option<&str>) -> String {
    assert!(is_item_ready(&item));
    kotlin_schema_dispatch(st, &item, name_override).expect("a declared item publishes").source
}

fn window_request() -> Item {
    let mut limit = field("limit", optional(FieldDefType::I32));
    limit.omits_key = true;
    structure(
        "WindowRequest",
        ItemFields::Named(vec![field("conversation_id", of(FieldDefType::String)), limit]),
    )
}

fn slot_enum() -> Item {
    enumeration(
        "Slot",
        attrs(None, None, None, false),
        vec![variant("North", ItemFields::Unit), variant("South", ItemFields::Unit)],
    )
}

#[test]
fn test_struct_rename_and_optional() {
    let kotlin = kotlin_of(window_request(), None);
    assert!(kotlin.contains("@Serializable"), "got: {kotlin}");
    assert!(
        kotlin.contains("data class WindowRequest("),
        "got: {kotlin}"
    );
    assert!(
        kotlin.contains("@SerialName(\"conversation_id\") val conversationId: String"),
        "got: {kotlin}"
    );
    assert!(kotlin.contains("val limit: Int? = null"), "got: {kotlin}");
    // The wire spelling already matches the Kotlin property, so no annotation is written for it.
    assert!(!kotlin.contains("@SerialName(\"limit\")"), "got: {kotlin}");
}

#[test]
fn test_width_table() {
    let widths = structure(
        "Widths",
        ItemFields::Named(vec![
            field("arch_signed", of(FieldDefType::Isize)),
            field("double", of(FieldDefType::F64)),
            field("flag", of(FieldDefType::Boolean)),
            field("items", list(FieldDefType::I32)),
            field("large_signed", of(FieldDefType::I64)),
            field("letter", of(FieldDefType::Char)),
            field("map", of(map(FieldDefType::String, FieldDefType::I32))),
            field("medium_signed", of(FieldDefType::I32)),
            field("medium_unsigned", of(FieldDefType::U32)),
            field("single", of(FieldDefType::F32)),
            field("small_signed", of(FieldDefType::I16)),
            field("small_unsigned", of(FieldDefType::U16)),
            field("text", of(FieldDefType::String)),
            field("tiny_signed", of(FieldDefType::I8)),
            field("tiny_unsigned", of(FieldDefType::U8)),
        ]),
    );
    let kotlin = kotlin_of(widths, None);
    for expected in [
        "val flag: Boolean",
        "val tinySigned: Byte",
        "val smallSigned: Short",
        "val mediumSigned: Int",
        "val largeSigned: Long",
        "val archSigned: Long",
        "val tinyUnsigned: UByte",
        "val smallUnsigned: UShort",
        "val mediumUnsigned: UInt",
        "val single: Float",
        "val double: Double",
        "val text: String",
        "val letter: String",
        "val items: List<Int>",
        "val map: Map<String, Int>",
    ] {
        assert!(
            kotlin.contains(expected),
            "missing {expected}, got: {kotlin}"
        );
    }
}

#[test]
fn test_plain_enum() {
    let status = enumeration(
        "Status",
        attrs(None, None, Some("lowercase"), false),
        vec![
            variant("Active", ItemFields::Unit),
            variant("Inactive", ItemFields::Unit),
            variant("Pending", ItemFields::Unit),
        ],
    );
    let kotlin = kotlin_of(status, None);
    assert!(
        kotlin.contains("@Serializable enum class Status"),
        "got: {kotlin}"
    );
    assert!(
        kotlin.contains("@SerialName(\"active\") Active"),
        "got: {kotlin}"
    );
    assert!(
        kotlin.contains("@SerialName(\"inactive\") Inactive"),
        "got: {kotlin}"
    );
}

#[test]
fn test_internal_tagged_enum() {
    let window_error = enumeration(
        "WindowError",
        attrs(Some("kind"), None, None, false),
        vec![
            variant("NotFound", ItemFields::Unit),
            variant(
                "RateLimited",
                ItemFields::Named(vec![field("retry_after_ms", of(FieldDefType::I64))]),
            ),
        ],
    );
    let kotlin = kotlin_of(window_error, None);
    assert!(
        kotlin.contains("@JsonClassDiscriminator(\"kind\")"),
        "got: {kotlin}"
    );
    assert!(
        kotlin.contains("sealed interface WindowError"),
        "got: {kotlin}"
    );
    assert!(
        kotlin.contains(
            "@SerialName(\"NotFound\") @Serializable data object WindowErrorNotFound : WindowError"
        ),
        "got: {kotlin}"
    );
    assert!(
        kotlin.contains(
            "@SerialName(\"RateLimited\") @Serializable data class WindowErrorRateLimited(@SerialName(\"retry_after_ms\") val retryAfterMs: Long) : WindowError"
        ),
        "got: {kotlin}"
    );
}

#[test]
fn test_adjacent_tagged_enum() {
    let dynamic_value = enumeration(
        "DynamicValue",
        attrs(Some("type"), Some("value"), None, false),
        vec![
            variant("Flag", ItemFields::Unnamed(vec![slot(of(FieldDefType::Boolean))])),
            variant("Nothing", ItemFields::Unit),
            variant("Number", ItemFields::Unnamed(vec![slot(of(FieldDefType::I64))])),
        ],
    );
    let kotlin = kotlin_of(dynamic_value, None);
    assert!(
        kotlin.contains("sealed interface DynamicValue"),
        "got: {kotlin}"
    );
    assert!(
        kotlin.contains("object DynamicValueSerializer : KSerializer<DynamicValue>"),
        "got: {kotlin}"
    );
    assert!(kotlin.contains("put(\"type\", \"Flag\")"), "got: {kotlin}");
    assert!(kotlin.contains("put(\"value\","), "got: {kotlin}");
}

#[test]
fn test_external_tagged_enum() {
    let external_tagged = enumeration(
        "ExternalTagged",
        attrs(None, None, None, false),
        vec![
            variant("Ping", ItemFields::Named(vec![field("nonce", of(FieldDefType::I32))])),
            variant("Pong", ItemFields::Named(vec![field("nonce", of(FieldDefType::I32))])),
        ],
    );
    let kotlin = kotlin_of(external_tagged, None);
    assert!(
        kotlin.contains("sealed interface ExternalTagged"),
        "got: {kotlin}"
    );
    assert!(
        kotlin.contains("object ExternalTaggedSerializer : KSerializer<ExternalTagged>"),
        "got: {kotlin}"
    );
    assert!(kotlin.contains("obj.entries.single()"), "got: {kotlin}");
}

#[test]
fn test_untagged_enum() {
    let date_value = enumeration(
        "DateValue",
        attrs(None, None, None, true),
        vec![
            variant("Epoch", ItemFields::Unnamed(vec![slot(of(FieldDefType::I64))])),
            variant("Iso", ItemFields::Unnamed(vec![slot(of(FieldDefType::String))])),
        ],
    );
    let kotlin = kotlin_of(date_value, None);
    assert!(
        kotlin.contains("sealed interface DateValue"),
        "got: {kotlin}"
    );
    assert!(
        kotlin.contains("object DateValueSerializer : KSerializer<DateValue>"),
        "got: {kotlin}"
    );
    assert!(kotlin.contains("runCatching {"), "got: {kotlin}");
    assert!(kotlin.contains("recoverCatching {"), "got: {kotlin}");
    assert!(
        kotlin.contains("@JvmInline @Serializable value class DateValueEpoch(val value: Long)"),
        "got: {kotlin}"
    );
}

#[test]
fn test_tuple_field() {
    let holds_tuple = structure(
        "HoldsTuple",
        ItemFields::Named(vec![field(
            "coords",
            of(FieldDefType::Tuple(vec![of(FieldDefType::String), of(FieldDefType::I64)])),
        )]),
    );
    let kotlin = kotlin_of(holds_tuple, None);
    assert!(kotlin.contains("data class KotlinTuple"), "got: {kotlin}");
    assert!(kotlin.contains("buildJsonArray {"), "got: {kotlin}");
    assert!(kotlin.contains("val slot0: String"), "got: {kotlin}");
    assert!(kotlin.contains("val slot1: Long"), "got: {kotlin}");
}

#[test]
fn test_non_string_map_keys() {
    let mut st = KotlinState::new();
    kotlin_in(&mut st, slot_enum(), None);
    let map_keys = structure(
        "MapKeys",
        ItemFields::Named(vec![
            field("by_number", of(map(FieldDefType::I32, FieldDefType::String))),
            field("by_slot", of(map(sibling("Slot"), FieldDefType::String))),
        ]),
    );
    let kotlin = kotlin_in(&mut st, map_keys, None);
    assert!(
        kotlin.contains("val byNumber: Map<Int, String>"),
        "got: {kotlin}"
    );
    assert!(
        kotlin.contains("val bySlot: Map<Slot, String>"),
        "got: {kotlin}"
    );
}

#[test]
fn test_alias() {
    let mut st = KotlinState::new();
    kotlin_in(&mut st, slot_enum(), None);
    let alias = Item::Type(AliasItem {
        ident: "SlotAliasKey".to_string(),
        generics: vec![],
        target: of(sibling("Slot")),
    });
    let kotlin = kotlin_in(&mut st, alias, None);
    // An alias with no `name` override still moves off its own Rust ident (the `Type` suffix),
    // and re-publishes under that ident so an earlier reference still resolves.
    assert!(
        kotlin.contains("typealias SlotAliasKeyType = Slot;"),
        "got: {kotlin}"
    );
    assert!(
        kotlin.contains("typealias SlotAliasKey = SlotAliasKeyType;"),
        "got: {kotlin}"
    );
}

#[test]
fn test_dates() {
    let mut zoned_ms = field("zoned_ms", of(FieldDefType::DateTime));
    zoned_ms.def.as_number = true;
    let dates = structure(
        "Dates",
        ItemFields::Named(vec![field("plain_date", of(FieldDefType::NaiveDate)), zoned_ms]),
    );
    let kotlin = kotlin_of(dates, None);
    assert!(kotlin.contains("val plainDate: String"), "got: {kotlin}");
    assert!(kotlin.contains("val zonedMs: Long"), "got: {kotlin}");
}

#[test]
fn test_object_id_bare() {
    let has_id = structure(
        "HasId",
        ItemFields::Named(vec![field("id", of(FieldDefType::ObjectId))]),
    );
    let kotlin = kotlin_of(has_id, None);
    assert!(kotlin.contains("val id: ObjectId"), "got: {kotlin}");
}

#[test]
fn test_branded_newtype() {
    let correlation_id = Item::Struct(StructItem {
        ident: "CorrelationId".to_string(),
        generics: vec![],
        rename_all: None,
        transparent: true,
        fields: ItemFields::Unnamed(vec![slot(of(FieldDefType::String))]),
    });
    let kotlin = kotlin_of(correlation_id, None);
    assert!(
        kotlin.contains("@JvmInline @Serializable value class CorrelationId(val value: String)"),
        "got: {kotlin}"
    );
}

#[test]
fn test_name_override() {
    let widget = structure(
        "Widget",
        ItemFields::Named(vec![field("label", of(FieldDefType::String))]),
    );
    let kotlin = kotlin_of(widget, Some("RenamedWidget"));
    assert!(
        kotlin.contains("data class RenamedWidget(val label: String)"),
        "got: {kotlin}"
    );
    assert!(
        kotlin.contains("typealias Widget = RenamedWidget;"),
        "got: {kotlin}"
    );
}

#[test]
fn test_generic_struct() {
    let wrapper = Item::Struct(StructItem {
        ident: "Wrapper".to_string(),
        generics: vec!["T".to_string()],
        rename_all: None,
        transparent: false,
        fields: ItemFields::Named(vec![field(
            "value",
            of(FieldDefType::TypeParam("T".to_string())),
        )]),
    });
    let kotlin = kotlin_of(wrapper, None);
    assert!(
        kotlin.contains("data class Wrapper<T>(val value: T)"),
        "got: {kotlin}"
    );
}
