//! The fixed Kotlin text around each declaration the Kotlin emitter writes, with a hole for each
//! name, type and list it fills in.

use vstd::prelude::*;

verus! {

pub open spec fn tuple_wrapper_text(serializer_name: Seq<char>, wrapper_name: Seq<char>, params: Seq<char>, encode_entries: Seq<char>, decode_entries: Seq<char>) -> Seq<char> {
    "@Serializable(with = "@
        + serializer_name
        + "::class) data class "@
        + wrapper_name
        + "("@
        + params
        + ") object "@
        + serializer_name
        + " : KSerializer<"@
        + wrapper_name
        + "> { override val descriptor: SerialDescriptor = buildClassSerialDescriptor(\""@
        + wrapper_name
        + "\"); override fun serialize(encoder: Encoder, value: "@
        + wrapper_name
        + ") { val output = encoder as JsonEncoder; output.encodeJsonElement(buildJsonArray { "@
        + encode_entries
        + " }) }; override fun deserialize(decoder: Decoder): "@
        + wrapper_name
        + " { val input = decoder as JsonDecoder; val array = input.decodeJsonElement().jsonArray; return "@
        + wrapper_name
        + "("@
        + decode_entries
        + ") } }"@
}

pub(crate) fn tuple_wrapper_declaration(serializer_name: &str, wrapper_name: &str, params: &str, encode_entries: &str, decode_entries: &str) -> (r: String)
    ensures
        r@ == tuple_wrapper_text(serializer_name@, wrapper_name@, params@, encode_entries@, decode_entries@),
{
    let mut r = String::from_str("@Serializable(with = ");
    r.append(serializer_name);
    r.append("::class) data class ");
    r.append(wrapper_name);
    r.append("(");
    r.append(params);
    r.append(") object ");
    r.append(serializer_name);
    r.append(" : KSerializer<");
    r.append(wrapper_name);
    r.append("> { override val descriptor: SerialDescriptor = buildClassSerialDescriptor(\"");
    r.append(wrapper_name);
    r.append("\"); override fun serialize(encoder: Encoder, value: ");
    r.append(wrapper_name);
    r.append(") { val output = encoder as JsonEncoder; output.encodeJsonElement(buildJsonArray { ");
    r.append(encode_entries);
    r.append(" }) }; override fun deserialize(decoder: Decoder): ");
    r.append(wrapper_name);
    r.append(" { val input = decoder as JsonDecoder; val array = input.decodeJsonElement().jsonArray; return ");
    r.append(wrapper_name);
    r.append("(");
    r.append(decode_entries);
    r.append(") } }");
    r
}

pub open spec fn tuple_struct_text(serializer_name: Seq<char>, export_name: Seq<char>, generic_params: Seq<char>, params: Seq<char>, encode_entries: Seq<char>, decode_entries: Seq<char>, alias: Seq<char>) -> Seq<char> {
    "@Serializable(with = "@
        + serializer_name
        + "::class) data class "@
        + export_name
        + generic_params
        + "("@
        + params
        + ") object "@
        + serializer_name
        + " : KSerializer<"@
        + export_name
        + generic_params
        + "> { override val descriptor: SerialDescriptor = buildClassSerialDescriptor(\""@
        + export_name
        + "\"); override fun serialize(encoder: Encoder, value: "@
        + export_name
        + generic_params
        + ") { val output = encoder as JsonEncoder; output.encodeJsonElement(buildJsonArray { "@
        + encode_entries
        + " }) }; override fun deserialize(decoder: Decoder): "@
        + export_name
        + generic_params
        + " { val input = decoder as JsonDecoder; val array = input.decodeJsonElement().jsonArray; return "@
        + export_name
        + "("@
        + decode_entries
        + ") } }"@
        + alias
}

pub(crate) fn tuple_struct_declaration(serializer_name: &str, export_name: &str, generic_params: &str, params: &str, encode_entries: &str, decode_entries: &str, alias: &str) -> (r: String)
    ensures
        r@ == tuple_struct_text(serializer_name@, export_name@, generic_params@, params@, encode_entries@, decode_entries@, alias@),
{
    let mut r = String::from_str("@Serializable(with = ");
    r.append(serializer_name);
    r.append("::class) data class ");
    r.append(export_name);
    r.append(generic_params);
    r.append("(");
    r.append(params);
    r.append(") object ");
    r.append(serializer_name);
    r.append(" : KSerializer<");
    r.append(export_name);
    r.append(generic_params);
    r.append("> { override val descriptor: SerialDescriptor = buildClassSerialDescriptor(\"");
    r.append(export_name);
    r.append("\"); override fun serialize(encoder: Encoder, value: ");
    r.append(export_name);
    r.append(generic_params);
    r.append(") { val output = encoder as JsonEncoder; output.encodeJsonElement(buildJsonArray { ");
    r.append(encode_entries);
    r.append(" }) }; override fun deserialize(decoder: Decoder): ");
    r.append(export_name);
    r.append(generic_params);
    r.append(" { val input = decoder as JsonDecoder; val array = input.decodeJsonElement().jsonArray; return ");
    r.append(export_name);
    r.append("(");
    r.append(decode_entries);
    r.append(") } }");
    r.append(alias);
    r
}

pub open spec fn unit_subclass_text(annotation: Seq<char>, subclass_name: Seq<char>, export_name: Seq<char>, generic_params: Seq<char>) -> Seq<char> {
    annotation
        + "@Serializable data object "@
        + subclass_name
        + " : "@
        + export_name
        + generic_params
}

pub(crate) fn unit_subclass(annotation: &str, subclass_name: &str, export_name: &str, generic_params: &str) -> (r: String)
    ensures
        r@ == unit_subclass_text(annotation@, subclass_name@, export_name@, generic_params@),
{
    let mut r = String::from_str(annotation);
    r.append("@Serializable data object ");
    r.append(subclass_name);
    r.append(" : ");
    r.append(export_name);
    r.append(generic_params);
    r
}

pub open spec fn named_subclass_text(annotation: Seq<char>, subclass_name: Seq<char>, generic_params: Seq<char>, params: Seq<char>, export_name: Seq<char>) -> Seq<char> {
    annotation
        + "@Serializable data class "@
        + subclass_name
        + generic_params
        + "("@
        + params
        + ") : "@
        + export_name
        + generic_params
}

pub(crate) fn named_subclass(annotation: &str, subclass_name: &str, generic_params: &str, params: &str, export_name: &str) -> (r: String)
    ensures
        r@ == named_subclass_text(annotation@, subclass_name@, generic_params@, params@, export_name@),
{
    let mut r = String::from_str(annotation);
    r.append("@Serializable data class ");
    r.append(subclass_name);
    r.append(generic_params);
    r.append("(");
    r.append(params);
    r.append(") : ");
    r.append(export_name);
    r.append(generic_params);
    r
}

pub open spec fn bare_value_subclass_text(annotation: Seq<char>, subclass_name: Seq<char>, value_type: Seq<char>, export_name: Seq<char>, generic_params: Seq<char>) -> Seq<char> {
    annotation
        + "@JvmInline @Serializable value class "@
        + subclass_name
        + "(val value: "@
        + value_type
        + ") : "@
        + export_name
        + generic_params
}

pub(crate) fn bare_value_subclass(annotation: &str, subclass_name: &str, value_type: &str, export_name: &str, generic_params: &str) -> (r: String)
    ensures
        r@ == bare_value_subclass_text(annotation@, subclass_name@, value_type@, export_name@, generic_params@),
{
    let mut r = String::from_str(annotation);
    r.append("@JvmInline @Serializable value class ");
    r.append(subclass_name);
    r.append("(val value: ");
    r.append(value_type);
    r.append(") : ");
    r.append(export_name);
    r.append(generic_params);
    r
}

pub open spec fn value_subclass_text(annotation: Seq<char>, subclass_name: Seq<char>, value_type: Seq<char>, export_name: Seq<char>, generic_params: Seq<char>) -> Seq<char> {
    annotation
        + "@Serializable data class "@
        + subclass_name
        + "(val value: "@
        + value_type
        + ") : "@
        + export_name
        + generic_params
}

pub(crate) fn value_subclass(annotation: &str, subclass_name: &str, value_type: &str, export_name: &str, generic_params: &str) -> (r: String)
    ensures
        r@ == value_subclass_text(annotation@, subclass_name@, value_type@, export_name@, generic_params@),
{
    let mut r = String::from_str(annotation);
    r.append("@Serializable data class ");
    r.append(subclass_name);
    r.append("(val value: ");
    r.append(value_type);
    r.append(") : ");
    r.append(export_name);
    r.append(generic_params);
    r
}

pub open spec fn internal_base_text(tag_key: Seq<char>, export_name: Seq<char>, generic_params: Seq<char>) -> Seq<char> {
    "@OptIn(ExperimentalSerializationApi::class) @Serializable @JsonClassDiscriminator(\""@
        + tag_key
        + "\") sealed interface "@
        + export_name
        + generic_params
}

pub(crate) fn internal_base(tag_key: &str, export_name: &str, generic_params: &str) -> (r: String)
    ensures
        r@ == internal_base_text(tag_key@, export_name@, generic_params@),
{
    let mut r = String::from_str("@OptIn(ExperimentalSerializationApi::class) @Serializable @JsonClassDiscriminator(\"");
    r.append(tag_key);
    r.append("\") sealed interface ");
    r.append(export_name);
    r.append(generic_params);
    r
}

pub open spec fn named_content_text(subclass_name: Seq<char>) -> Seq<char> {
    "output.json.encodeToJsonElement(serializer<"@
        + subclass_name
        + ">(), value)"@
}

pub(crate) fn named_content(subclass_name: &str) -> (r: String)
    ensures
        r@ == named_content_text(subclass_name@),
{
    let mut r = String::from_str("output.json.encodeToJsonElement(serializer<");
    r.append(subclass_name);
    r.append(">(), value)");
    r
}

pub open spec fn value_content_text(serializer: Seq<char>) -> Seq<char> {
    "output.json.encodeToJsonElement("@
        + serializer
        + ", value.value)"@
}

pub(crate) fn value_content(serializer: &str) -> (r: String)
    ensures
        r@ == value_content_text(serializer@),
{
    let mut r = String::from_str("output.json.encodeToJsonElement(");
    r.append(serializer);
    r.append(", value.value)");
    r
}

pub open spec fn named_decode_text(subclass_name: Seq<char>, data_ref: Seq<char>) -> Seq<char> {
    "input.json.decodeFromJsonElement(serializer<"@
        + subclass_name
        + ">(), "@
        + data_ref
        + ")"@
}

pub(crate) fn named_decode(subclass_name: &str, data_ref: &str) -> (r: String)
    ensures
        r@ == named_decode_text(subclass_name@, data_ref@),
{
    let mut r = String::from_str("input.json.decodeFromJsonElement(serializer<");
    r.append(subclass_name);
    r.append(">(), ");
    r.append(data_ref);
    r.append(")");
    r
}

pub open spec fn value_decode_text(subclass_name: Seq<char>, serializer: Seq<char>, data_ref: Seq<char>) -> Seq<char> {
    subclass_name
        + "(input.json.decodeFromJsonElement("@
        + serializer
        + ", "@
        + data_ref
        + "))"@
}

pub(crate) fn value_decode(subclass_name: &str, serializer: &str, data_ref: &str) -> (r: String)
    ensures
        r@ == value_decode_text(subclass_name@, serializer@, data_ref@),
{
    let mut r = String::from_str(subclass_name);
    r.append("(input.json.decodeFromJsonElement(");
    r.append(serializer);
    r.append(", ");
    r.append(data_ref);
    r.append("))");
    r
}

pub open spec fn adjacent_content_arm_text(subclass_name: Seq<char>, tag_key: Seq<char>, wire_tag: Seq<char>, content: Seq<char>, expr: Seq<char>) -> Seq<char> {
    "is "@
        + subclass_name
        + " -> buildJsonObject { put(\""@
        + tag_key
        + "\", \""@
        + wire_tag
        + "\"); put(\""@
        + content
        + "\", "@
        + expr
        + ") }"@
}

pub(crate) fn adjacent_content_arm(subclass_name: &str, tag_key: &str, wire_tag: &str, content: &str, expr: &str) -> (r: String)
    ensures
        r@ == adjacent_content_arm_text(subclass_name@, tag_key@, wire_tag@, content@, expr@),
{
    let mut r = String::from_str("is ");
    r.append(subclass_name);
    r.append(" -> buildJsonObject { put(\"");
    r.append(tag_key);
    r.append("\", \"");
    r.append(wire_tag);
    r.append("\"); put(\"");
    r.append(content);
    r.append("\", ");
    r.append(expr);
    r.append(") }");
    r
}

pub open spec fn external_content_arm_text(subclass_name: Seq<char>, wire_tag: Seq<char>, expr: Seq<char>) -> Seq<char> {
    "is "@
        + subclass_name
        + " -> buildJsonObject { put(\""@
        + wire_tag
        + "\", "@
        + expr
        + ") }"@
}

pub(crate) fn external_content_arm(subclass_name: &str, wire_tag: &str, expr: &str) -> (r: String)
    ensures
        r@ == external_content_arm_text(subclass_name@, wire_tag@, expr@),
{
    let mut r = String::from_str("is ");
    r.append(subclass_name);
    r.append(" -> buildJsonObject { put(\"");
    r.append(wire_tag);
    r.append("\", ");
    r.append(expr);
    r.append(") }");
    r
}

pub open spec fn adjacent_unit_arm_text(subclass_name: Seq<char>, tag_key: Seq<char>, wire_tag: Seq<char>) -> Seq<char> {
    "is "@
        + subclass_name
        + " -> buildJsonObject { put(\""@
        + tag_key
        + "\", \""@
        + wire_tag
        + "\") }"@
}

pub(crate) fn adjacent_unit_arm(subclass_name: &str, tag_key: &str, wire_tag: &str) -> (r: String)
    ensures
        r@ == adjacent_unit_arm_text(subclass_name@, tag_key@, wire_tag@),
{
    let mut r = String::from_str("is ");
    r.append(subclass_name);
    r.append(" -> buildJsonObject { put(\"");
    r.append(tag_key);
    r.append("\", \"");
    r.append(wire_tag);
    r.append("\") }");
    r
}

pub open spec fn external_unit_arm_text(subclass_name: Seq<char>, wire_tag: Seq<char>) -> Seq<char> {
    "is "@
        + subclass_name
        + " -> JsonPrimitive(\""@
        + wire_tag
        + "\")"@
}

pub(crate) fn external_unit_arm(subclass_name: &str, wire_tag: &str) -> (r: String)
    ensures
        r@ == external_unit_arm_text(subclass_name@, wire_tag@),
{
    let mut r = String::from_str("is ");
    r.append(subclass_name);
    r.append(" -> JsonPrimitive(\"");
    r.append(wire_tag);
    r.append("\")");
    r
}

pub open spec fn deserialize_arm_text(wire_tag: Seq<char>, decode_expr: Seq<char>) -> Seq<char> {
    "\""@
        + wire_tag
        + "\" -> "@
        + decode_expr
}

pub(crate) fn deserialize_arm(wire_tag: &str, decode_expr: &str) -> (r: String)
    ensures
        r@ == deserialize_arm_text(wire_tag@, decode_expr@),
{
    let mut r = String::from_str("\"");
    r.append(wire_tag);
    r.append("\" -> ");
    r.append(decode_expr);
    r
}

pub open spec fn external_deserialize_body_text(arms: Seq<char>) -> Seq<char> {
    "val obj = input.decodeJsonElement().jsonObject; val (tag, data) = obj.entries.single(); return when (tag) { "@
        + arms
        + " else -> error(\"unknown tag \" + tag) }"@
}

pub(crate) fn external_deserialize_body(arms: &str) -> (r: String)
    ensures
        r@ == external_deserialize_body_text(arms@),
{
    let mut r = String::from_str("val obj = input.decodeJsonElement().jsonObject; val (tag, data) = obj.entries.single(); return when (tag) { ");
    r.append(arms);
    r.append(" else -> error(\"unknown tag \" + tag) }");
    r
}

pub open spec fn adjacent_deserialize_body_text(tag_key: Seq<char>, content: Seq<char>, arms: Seq<char>) -> Seq<char> {
    "val obj = input.decodeJsonElement().jsonObject; val tag = obj.getValue(\""@
        + tag_key
        + "\").jsonPrimitive.content; val data = obj[\""@
        + content
        + "\"]; return when (tag) { "@
        + arms
        + " else -> error(\"unknown tag \" + tag) }"@
}

pub(crate) fn adjacent_deserialize_body(tag_key: &str, content: &str, arms: &str) -> (r: String)
    ensures
        r@ == adjacent_deserialize_body_text(tag_key@, content@, arms@),
{
    let mut r = String::from_str("val obj = input.decodeJsonElement().jsonObject; val tag = obj.getValue(\"");
    r.append(tag_key);
    r.append("\").jsonPrimitive.content; val data = obj[\"");
    r.append(content);
    r.append("\"]; return when (tag) { ");
    r.append(arms);
    r.append(" else -> error(\"unknown tag \" + tag) }");
    r
}

pub open spec fn dispatched_serializer_text(serializer_name: Seq<char>, export_name: Seq<char>, generic_params: Seq<char>, arms: Seq<char>, deserialize_body: Seq<char>) -> Seq<char> {
    "object "@
        + serializer_name
        + " : KSerializer<"@
        + export_name
        + generic_params
        + "> { override val descriptor: SerialDescriptor = buildClassSerialDescriptor(\""@
        + export_name
        + "\"); override fun serialize(encoder: Encoder, value: "@
        + export_name
        + generic_params
        + ") { val output = encoder as JsonEncoder; output.encodeJsonElement(when (value) { "@
        + arms
        + " }) }; override fun deserialize(decoder: Decoder): "@
        + export_name
        + generic_params
        + " { val input = decoder as JsonDecoder; "@
        + deserialize_body
        + " } }"@
}

pub(crate) fn dispatched_serializer(serializer_name: &str, export_name: &str, generic_params: &str, arms: &str, deserialize_body: &str) -> (r: String)
    ensures
        r@ == dispatched_serializer_text(serializer_name@, export_name@, generic_params@, arms@, deserialize_body@),
{
    let mut r = String::from_str("object ");
    r.append(serializer_name);
    r.append(" : KSerializer<");
    r.append(export_name);
    r.append(generic_params);
    r.append("> { override val descriptor: SerialDescriptor = buildClassSerialDescriptor(\"");
    r.append(export_name);
    r.append("\"); override fun serialize(encoder: Encoder, value: ");
    r.append(export_name);
    r.append(generic_params);
    r.append(") { val output = encoder as JsonEncoder; output.encodeJsonElement(when (value) { ");
    r.append(arms);
    r.append(" }) }; override fun deserialize(decoder: Decoder): ");
    r.append(export_name);
    r.append(generic_params);
    r.append(" { val input = decoder as JsonDecoder; ");
    r.append(deserialize_body);
    r.append(" } }");
    r
}

pub open spec fn untagged_arm_text(subclass_name: Seq<char>) -> Seq<char> {
    "is "@
        + subclass_name
        + " -> output.json.encodeToJsonElement(serializer<"@
        + subclass_name
        + ">(), value)"@
}

pub(crate) fn untagged_arm(subclass_name: &str) -> (r: String)
    ensures
        r@ == untagged_arm_text(subclass_name@),
{
    let mut r = String::from_str("is ");
    r.append(subclass_name);
    r.append(" -> output.json.encodeToJsonElement(serializer<");
    r.append(subclass_name);
    r.append(">(), value)");
    r
}

pub open spec fn recover_text(deserialize_chain: Seq<char>, subclass_name: Seq<char>, export_name: Seq<char>, generic_params: Seq<char>) -> Seq<char> {
    deserialize_chain
        + ".recoverCatching { input.json.decodeFromJsonElement(serializer<"@
        + subclass_name
        + ">(), element) as "@
        + export_name
        + generic_params
        + " }"@
}

pub(crate) fn recover(deserialize_chain: &str, subclass_name: &str, export_name: &str, generic_params: &str) -> (r: String)
    ensures
        r@ == recover_text(deserialize_chain@, subclass_name@, export_name@, generic_params@),
{
    let mut r = String::from_str(deserialize_chain);
    r.append(".recoverCatching { input.json.decodeFromJsonElement(serializer<");
    r.append(subclass_name);
    r.append(">(), element) as ");
    r.append(export_name);
    r.append(generic_params);
    r.append(" }");
    r
}

pub open spec fn untagged_serializer_text(serializer_name: Seq<char>, export_name: Seq<char>, generic_params: Seq<char>, arms: Seq<char>, deserialize_chain: Seq<char>) -> Seq<char> {
    "object "@
        + serializer_name
        + " : KSerializer<"@
        + export_name
        + generic_params
        + "> { override val descriptor: SerialDescriptor = buildClassSerialDescriptor(\""@
        + export_name
        + "\"); override fun serialize(encoder: Encoder, value: "@
        + export_name
        + generic_params
        + ") { val output = encoder as JsonEncoder; output.encodeJsonElement(when (value) { "@
        + arms
        + " }) }; override fun deserialize(decoder: Decoder): "@
        + export_name
        + generic_params
        + " { val input = decoder as JsonDecoder; val element = input.decodeJsonElement(); return "@
        + deserialize_chain
        + ".getOrElse { error(\"No variant of "@
        + export_name
        + " matched\") } } }"@
}

pub(crate) fn untagged_serializer(serializer_name: &str, export_name: &str, generic_params: &str, arms: &str, deserialize_chain: &str) -> (r: String)
    ensures
        r@ == untagged_serializer_text(serializer_name@, export_name@, generic_params@, arms@, deserialize_chain@),
{
    let mut r = String::from_str("object ");
    r.append(serializer_name);
    r.append(" : KSerializer<");
    r.append(export_name);
    r.append(generic_params);
    r.append("> { override val descriptor: SerialDescriptor = buildClassSerialDescriptor(\"");
    r.append(export_name);
    r.append("\"); override fun serialize(encoder: Encoder, value: ");
    r.append(export_name);
    r.append(generic_params);
    r.append(") { val output = encoder as JsonEncoder; output.encodeJsonElement(when (value) { ");
    r.append(arms);
    r.append(" }) }; override fun deserialize(decoder: Decoder): ");
    r.append(export_name);
    r.append(generic_params);
    r.append(" { val input = decoder as JsonDecoder; val element = input.decodeJsonElement(); return ");
    r.append(deserialize_chain);
    r.append(".getOrElse { error(\"No variant of ");
    r.append(export_name);
    r.append(" matched\") } } }");
    r
}

pub open spec fn plain_enum_text(export_name: Seq<char>, members: Seq<char>) -> Seq<char> {
    "@Serializable enum class "@
        + export_name
        + " { "@
        + members
        + " }"@
}

pub(crate) fn plain_enum(export_name: &str, members: &str) -> (r: String)
    ensures
        r@ == plain_enum_text(export_name@, members@),
{
    let mut r = String::from_str("@Serializable enum class ");
    r.append(export_name);
    r.append(" { ");
    r.append(members);
    r.append(" }");
    r
}

} // verus!
