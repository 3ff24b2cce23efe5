//! The fixed Kotlin text of the `ws_rpc` client, transport and dispatcher, with a hole for each
//! name and piece it fills in.

use vstd::prelude::*;

verus! {

/// The seam a transport owns: `send`, `close`, and the two callbacks only the transport sets.
pub open spec fn socket_interface_text(named: Seq<char>) -> Seq<char> {
    "/// The seam a `"@
        + named
        + "` `ws_rpc` transport owns: the only place `onMessage` and\n"@
        + "/// `onClose` are ever set, so a real socket satisfies this once and the transport takes\n"@
        + "/// it from there.\n"@
        + "interface "@
        + named
        + "WsSocket {\n"@
        + "  fun send(text: String)\n"@
        + "  fun close()\n"@
        + "  var onMessage: ((String) -> Unit)?\n"@
        + "  var onClose: (() -> Unit)?\n"@
        + "}"@
}

pub fn socket_interface(named: &str) -> (r: String)
    ensures
        r@ == socket_interface_text(named@),
{
    let mut r = String::from_str("/// The seam a `");
    r.append(named);
    r.append("` `ws_rpc` transport owns: the only place `onMessage` and\n");
    r.append("/// `onClose` are ever set, so a real socket satisfies this once and the transport takes\n");
    r.append("/// it from there.\n");
    r.append("interface ");
    r.append(named);
    r.append("WsSocket {\n");
    r.append("  fun send(text: String)\n");
    r.append("  fun close()\n");
    r.append("  var onMessage: ((String) -> Unit)?\n");
    r.append("  var onClose: (() -> Unit)?\n");
    r.append("}");
    r
}

/// The heartbeat options: a 30 s interval, a 10 s pong timeout, and `null` to turn probing off.
pub open spec fn options_class_text(named: Seq<char>) -> Seq<char> {
    "/// How often a `"@
        + named
        + "` `ws_rpc` transport pings the far side, and how long it waits\n"@
        + "/// for the answering pong before closing the connection. `heartbeat = null` turns\n"@
        + "/// probing off entirely.\n"@
        + "data class "@
        + named
        + "WsOptions(\n"@
        + "  val heartbeat: Heartbeat? = Heartbeat(intervalMs = 30_000, timeoutMs = 10_000),\n"@
        + ") {\n"@
        + "  data class Heartbeat(val intervalMs: Long, val timeoutMs: Long)\n"@
        + "}"@
}

pub fn options_class(named: &str) -> (r: String)
    ensures
        r@ == options_class_text(named@),
{
    let mut r = String::from_str("/// How often a `");
    r.append(named);
    r.append("` `ws_rpc` transport pings the far side, and how long it waits\n");
    r.append("/// for the answering pong before closing the connection. `heartbeat = null` turns\n");
    r.append("/// probing off entirely.\n");
    r.append("data class ");
    r.append(named);
    r.append("WsOptions(\n");
    r.append("  val heartbeat: Heartbeat? = Heartbeat(intervalMs = 30_000, timeoutMs = 10_000),\n");
    r.append(") {\n");
    r.append("  data class Heartbeat(val intervalMs: Long, val timeoutMs: Long)\n");
    r.append("}");
    r
}

/// The structural record an attachment dispatches over: inbound frames, the sender, the scope.
pub open spec fn frames_class_text(named: Seq<char>) -> Seq<char> {
    "/// The structural seam a `"@
        + named
        + "` `ws_rpc` transport publishes and\n"@
        + "/// `attach"@
        + named
        + "WsDispatcher` takes: every inbound frame the transport does not itself\n"@
        + "/// correlate to a pending `request` (a ping and a pong included nowhere), the raw-text\n"@
        + "/// sender to answer over, and the transport's own scope — so closing the transport\n"@
        + "/// cancels this attachment, and every one it shared the socket with, along with it.\n"@
        + "data class "@
        + named
        + "WsFrames(\n"@
        + "  val inbound: SharedFlow<String>,\n"@
        + "  val send: (String) -> Unit,\n"@
        + "  val scope: CoroutineScope,\n"@
        + ")"@
}

pub fn frames_class(named: &str) -> (r: String)
    ensures
        r@ == frames_class_text(named@),
{
    let mut r = String::from_str("/// The structural seam a `");
    r.append(named);
    r.append("` `ws_rpc` transport publishes and\n");
    r.append("/// `attach");
    r.append(named);
    r.append("WsDispatcher` takes: every inbound frame the transport does not itself\n");
    r.append("/// correlate to a pending `request` (a ping and a pong included nowhere), the raw-text\n");
    r.append("/// sender to answer over, and the transport's own scope — so closing the transport\n");
    r.append("/// cancels this attachment, and every one it shared the socket with, along with it.\n");
    r.append("data class ");
    r.append(named);
    r.append("WsFrames(\n");
    r.append("  val inbound: SharedFlow<String>,\n");
    r.append("  val send: (String) -> Unit,\n");
    r.append("  val scope: CoroutineScope,\n");
    r.append(")");
    r
}

/// The exception a one-way method throws, carrying the fault fields.
pub open spec fn refusal_class_text(named: Seq<char>, fields: Seq<char>) -> Seq<char> {
    "/// What a one-way `"@
        + named
        + "` `ws_rpc` method throws when it cannot deliver its `notify`\n"@
        + "/// frame. A one-way operation declares no error, so there is nothing else to throw.\n"@
        + "class "@
        + named
        + "WsRefusal(val fault: "@
        + fields
        + ") : Exception(fault.detail)"@
}

pub fn refusal_class_layout(named: &str, fields: &str) -> (r: String)
    ensures
        r@ == refusal_class_text(named@, fields@),
{
    let mut r = String::from_str("/// What a one-way `");
    r.append(named);
    r.append("` `ws_rpc` method throws when it cannot deliver its `notify`\n");
    r.append("/// frame. A one-way operation declares no error, so there is nothing else to throw.\n");
    r.append("class ");
    r.append(named);
    r.append("WsRefusal(val fault: ");
    r.append(fields);
    r.append(") : Exception(fault.detail)");
    r
}

/// The transport class, assembled from its parts.
pub open spec fn transport_class_layout_text(header: Seq<char>, request: Seq<char>, notify_and_send: Seq<char>, on_frame: Seq<char>, heartbeat: Seq<char>, close: Seq<char>) -> Seq<char> {
    header
        + request
        + notify_and_send
        + on_frame
        + heartbeat
        + close
        + "\n"@
        + "}"@
}

pub fn transport_class_layout(header: &str, request: &str, notify_and_send: &str, on_frame: &str, heartbeat: &str, close: &str) -> (r: String)
    ensures
        r@ == transport_class_layout_text(header@, request@, notify_and_send@, on_frame@, heartbeat@, close@),
{
    let mut r = String::from_str(header);
    r.append(request);
    r.append(notify_and_send);
    r.append(on_frame);
    r.append(heartbeat);
    r.append(close);
    r.append("\n");
    r.append("}");
    r
}

/// The transport's doc, constructor, fields, `init`, and the `frames` seam.
pub open spec fn transport_header_text(named: Seq<char>) -> Seq<char> {
    "/// A `"@
        + named
        + "` `ws_rpc` transport that owns `socket` under the preferred ownership\n"@
        + "/// shape: correlates a `request` to its reply through a `CompletableDeferred`, answers\n"@
        + "/// an inbound ping with one pong, and runs its own heartbeat on a scope it owns and\n"@
        + "/// hands out through `frames` — closing this transport cancels that scope, and with it\n"@
        + "/// every dispatcher reading `frames`, shared ones included.\n"@
        + "///\n"@
        + "/// `request` runs on its caller's coroutine, `onFrame` on whatever thread the socket\n"@
        + "/// delivers on, and the heartbeat and `close` on the transport's own scope — so every\n"@
        + "/// read and write of `pending`, `nextId` and `pongJob` is guarded by `synchronized(this)`,\n"@
        + "/// a call to the socket or a pending deferred never made while holding it.\n"@
        + "class "@
        + named
        + "WsTransport(\n"@
        + "  private val socket: "@
        + named
        + "WsSocket,\n"@
        + "  private val options: "@
        + named
        + "WsOptions = "@
        + named
        + "WsOptions(),\n"@
        + ") {\n"@
        + "  private val scope = CoroutineScope(SupervisorJob() + Dispatchers.Default)\n"@
        + "  private val pending = mutableMapOf<String, CompletableDeferred<JsonObject?>>()\n"@
        + "  private val uncorrelated = MutableSharedFlow<String>(extraBufferCapacity = 64)\n"@
        + "  private var nextId = 1\n"@
        + "  private var pongJob: Job? = null\n"@
        + "  private var closed = false\n"@
        + "\n"@
        + "  init {\n"@
        + "    socket.onMessage = { text -> onFrame(text) }\n"@
        + "    socket.onClose = { close() }\n"@
        + "    scheduleHeartbeat()\n"@
        + "  }\n"@
        + "\n"@
        + "  /// The structural seam an attachment dispatches over. Every `"@
        + named
        + "WsTransport`\n"@
        + "  /// exposes the same shape, so an attachment for any service sharing this socket reaches\n"@
        + "  /// it here rather than through a transport type of its own.\n"@
        + "  val frames: "@
        + named
        + "WsFrames\n"@
        + "    get() = "@
        + named
        + "WsFrames(uncorrelated.asSharedFlow(), socket::send, scope)\n"@
        + "\n"@
        + "  "@
}

pub fn transport_header_stmt(named: &str) -> (r: String)
    ensures
        r@ == transport_header_text(named@),
{
    let mut r = String::from_str("/// A `");
    r.append(named);
    r.append("` `ws_rpc` transport that owns `socket` under the preferred ownership\n");
    r.append("/// shape: correlates a `request` to its reply through a `CompletableDeferred`, answers\n");
    r.append("/// an inbound ping with one pong, and runs its own heartbeat on a scope it owns and\n");
    r.append("/// hands out through `frames` — closing this transport cancels that scope, and with it\n");
    r.append("/// every dispatcher reading `frames`, shared ones included.\n");
    r.append("///\n");
    r.append("/// `request` runs on its caller's coroutine, `onFrame` on whatever thread the socket\n");
    r.append("/// delivers on, and the heartbeat and `close` on the transport's own scope — so every\n");
    r.append("/// read and write of `pending`, `nextId` and `pongJob` is guarded by `synchronized(this)`,\n");
    r.append("/// a call to the socket or a pending deferred never made while holding it.\n");
    r.append("class ");
    r.append(named);
    r.append("WsTransport(\n");
    r.append("  private val socket: ");
    r.append(named);
    r.append("WsSocket,\n");
    r.append("  private val options: ");
    r.append(named);
    r.append("WsOptions = ");
    r.append(named);
    r.append("WsOptions(),\n");
    r.append(") {\n");
    r.append("  private val scope = CoroutineScope(SupervisorJob() + Dispatchers.Default)\n");
    r.append("  private val pending = mutableMapOf<String, CompletableDeferred<JsonObject?>>()\n");
    r.append("  private val uncorrelated = MutableSharedFlow<String>(extraBufferCapacity = 64)\n");
    r.append("  private var nextId = 1\n");
    r.append("  private var pongJob: Job? = null\n");
    r.append("  private var closed = false\n");
    r.append("\n");
    r.append("  init {\n");
    r.append("    socket.onMessage = { text -> onFrame(text) }\n");
    r.append("    socket.onClose = { close() }\n");
    r.append("    scheduleHeartbeat()\n");
    r.append("  }\n");
    r.append("\n");
    r.append("  /// The structural seam an attachment dispatches over. Every `");
    r.append(named);
    r.append("WsTransport`\n");
    r.append("  /// exposes the same shape, so an attachment for any service sharing this socket reaches\n");
    r.append("  /// it here rather than through a transport type of its own.\n");
    r.append("  val frames: ");
    r.append(named);
    r.append("WsFrames\n");
    r.append("    get() = ");
    r.append(named);
    r.append("WsFrames(uncorrelated.asSharedFlow(), socket::send, scope)\n");
    r.append("\n");
    r.append("  ");
    r
}

/// `request`: assigns the id and registers the deferred under one lock, then sends and awaits.
pub open spec fn transport_request_text(named: Seq<char>) -> Seq<char> {
    "/// Sends `operation` with `payload` as a `request` frame and answers with the matching\n"@
        + "  /// `reply` frame's own fields, or `null` once the connection closes before one arrives.\n"@
        + "  suspend fun request(operation: String, payload: JsonElement?): JsonObject? {\n"@
        + "    val deferred = CompletableDeferred<JsonObject?>()\n"@
        + "    val id = synchronized(this) {\n"@
        + "      val assigned = (nextId++).toString()\n"@
        + "      pending[assigned] = deferred\n"@
        + "      assigned\n"@
        + "    }\n"@
        + "    send(\n"@
        + "      buildJsonObject {\n"@
        + "        put(\"kind\", \"request\")\n"@
        + "        put(\"id\", id)\n"@
        + "        put(\"service\", \""@
        + named
        + "\")\n"@
        + "        put(\"operation\", operation)\n"@
        + "        put(\"payload\", payload ?: JsonNull)\n"@
        + "      },\n"@
        + "    )\n"@
        + "    return deferred.await()\n"@
        + "  }\n"@
        + "\n"@
        + "  "@
}

pub fn transport_request_stmt(named: &str) -> (r: String)
    ensures
        r@ == transport_request_text(named@),
{
    let mut r = String::from_str("/// Sends `operation` with `payload` as a `request` frame and answers with the matching\n");
    r.append("  /// `reply` frame's own fields, or `null` once the connection closes before one arrives.\n");
    r.append("  suspend fun request(operation: String, payload: JsonElement?): JsonObject? {\n");
    r.append("    val deferred = CompletableDeferred<JsonObject?>()\n");
    r.append("    val id = synchronized(this) {\n");
    r.append("      val assigned = (nextId++).toString()\n");
    r.append("      pending[assigned] = deferred\n");
    r.append("      assigned\n");
    r.append("    }\n");
    r.append("    send(\n");
    r.append("      buildJsonObject {\n");
    r.append("        put(\"kind\", \"request\")\n");
    r.append("        put(\"id\", id)\n");
    r.append("        put(\"service\", \"");
    r.append(named);
    r.append("\")\n");
    r.append("        put(\"operation\", operation)\n");
    r.append("        put(\"payload\", payload ?: JsonNull)\n");
    r.append("      },\n");
    r.append("    )\n");
    r.append("    return deferred.await()\n");
    r.append("  }\n");
    r.append("\n");
    r.append("  ");
    r
}

/// `notify`, and the private `send` every frame goes out through.
pub open spec fn transport_notify_and_send_text(named: Seq<char>) -> Seq<char> {
    "/// Sends `operation` with `payload` as a `notify` frame. No reply is expected.\n"@
        + "  fun notify(operation: String, payload: JsonElement?) {\n"@
        + "    send(\n"@
        + "      buildJsonObject {\n"@
        + "        put(\"kind\", \"notify\")\n"@
        + "        put(\"service\", \""@
        + named
        + "\")\n"@
        + "        put(\"operation\", operation)\n"@
        + "        put(\"payload\", payload ?: JsonNull)\n"@
        + "      },\n"@
        + "    )\n"@
        + "  }\n"@
        + "\n"@
        + "  private fun send(frame: JsonObject) {\n"@
        + "    socket.send(frame.toString())\n"@
        + "  }\n"@
        + "\n"@
        + "  "@
}

pub fn transport_notify_and_send_stmt(named: &str) -> (r: String)
    ensures
        r@ == transport_notify_and_send_text(named@),
{
    let mut r = String::from_str("/// Sends `operation` with `payload` as a `notify` frame. No reply is expected.\n");
    r.append("  fun notify(operation: String, payload: JsonElement?) {\n");
    r.append("    send(\n");
    r.append("      buildJsonObject {\n");
    r.append("        put(\"kind\", \"notify\")\n");
    r.append("        put(\"service\", \"");
    r.append(named);
    r.append("\")\n");
    r.append("        put(\"operation\", operation)\n");
    r.append("        put(\"payload\", payload ?: JsonNull)\n");
    r.append("      },\n");
    r.append("    )\n");
    r.append("  }\n");
    r.append("\n");
    r.append("  private fun send(frame: JsonObject) {\n");
    r.append("    socket.send(frame.toString())\n");
    r.append("  }\n");
    r.append("\n");
    r.append("  ");
    r
}

/// `onFrame`: a pong cancels the watcher, a ping draws one pong, a reply settles its deferred.
pub open spec fn transport_on_frame_text() -> Seq<char> {
    "private fun onFrame(text: String) {\n"@
        + "    val frame = try {\n"@
        + "      Json.parseToJsonElement(text).jsonObject\n"@
        + "    } catch (malformed: Throwable) {\n"@
        + "      return\n"@
        + "    }\n"@
        + "    when ((frame[\"kind\"] as? JsonPrimitive)?.contentOrNull) {\n"@
        + "      \"pong\" -> {\n"@
        + "        val watcher = synchronized(this) {\n"@
        + "          val current = pongJob\n"@
        + "          pongJob = null\n"@
        + "          current\n"@
        + "        }\n"@
        + "        watcher?.cancel()\n"@
        + "      }\n"@
        + "      \"ping\" -> send(buildJsonObject { put(\"kind\", \"pong\") })\n"@
        + "      \"reply\" -> {\n"@
        + "        val id = (frame[\"id\"] as? JsonPrimitive)?.contentOrNull\n"@
        + "        val deferred = id?.let { key -> synchronized(this) { pending.remove(key) } }\n"@
        + "        if (deferred != null) deferred.complete(frame) else uncorrelated.tryEmit(text)\n"@
        + "      }\n"@
        + "      else -> uncorrelated.tryEmit(text)\n"@
        + "    }\n"@
        + "  }\n"@
        + "\n"@
        + "  "@
}

pub fn transport_on_frame_stmt() -> (r: String)
    ensures
        r@ == transport_on_frame_text(),
{
    let mut r = String::from_str("private fun onFrame(text: String) {\n");
    r.append("    val frame = try {\n");
    r.append("      Json.parseToJsonElement(text).jsonObject\n");
    r.append("    } catch (malformed: Throwable) {\n");
    r.append("      return\n");
    r.append("    }\n");
    r.append("    when ((frame[\"kind\"] as? JsonPrimitive)?.contentOrNull) {\n");
    r.append("      \"pong\" -> {\n");
    r.append("        val watcher = synchronized(this) {\n");
    r.append("          val current = pongJob\n");
    r.append("          pongJob = null\n");
    r.append("          current\n");
    r.append("        }\n");
    r.append("        watcher?.cancel()\n");
    r.append("      }\n");
    r.append("      \"ping\" -> send(buildJsonObject { put(\"kind\", \"pong\") })\n");
    r.append("      \"reply\" -> {\n");
    r.append("        val id = (frame[\"id\"] as? JsonPrimitive)?.contentOrNull\n");
    r.append("        val deferred = id?.let { key -> synchronized(this) { pending.remove(key) } }\n");
    r.append("        if (deferred != null) deferred.complete(frame) else uncorrelated.tryEmit(text)\n");
    r.append("      }\n");
    r.append("      else -> uncorrelated.tryEmit(text)\n");
    r.append("    }\n");
    r.append("  }\n");
    r.append("\n");
    r.append("  ");
    r
}

/// The heartbeat: arms the pong watcher under one lock before sending each ping.
pub open spec fn transport_heartbeat_text(named: Seq<char>) -> Seq<char> {
    "private fun scheduleHeartbeat() {\n"@
        + "    val heartbeat = options.heartbeat ?: return\n"@
        + "    scope.launch {\n"@
        + "      while (isActive) {\n"@
        + "        delay(heartbeat.intervalMs)\n"@
        + "        val previous = synchronized(this@"@
        + named
        + "WsTransport) {\n"@
        + "          val current = pongJob\n"@
        + "          pongJob = scope.launch {\n"@
        + "            delay(heartbeat.timeoutMs)\n"@
        + "            close()\n"@
        + "          }\n"@
        + "          current\n"@
        + "        }\n"@
        + "        previous?.cancel()\n"@
        + "        send(buildJsonObject { put(\"kind\", \"ping\") })\n"@
        + "      }\n"@
        + "    }\n"@
        + "  }\n"@
        + "\n"@
        + "  "@
}

pub fn transport_heartbeat_stmt(named: &str) -> (r: String)
    ensures
        r@ == transport_heartbeat_text(named@),
{
    let mut r = String::from_str("private fun scheduleHeartbeat() {\n");
    r.append("    val heartbeat = options.heartbeat ?: return\n");
    r.append("    scope.launch {\n");
    r.append("      while (isActive) {\n");
    r.append("        delay(heartbeat.intervalMs)\n");
    r.append("        val previous = synchronized(this@");
    r.append(named);
    r.append("WsTransport) {\n");
    r.append("          val current = pongJob\n");
    r.append("          pongJob = scope.launch {\n");
    r.append("            delay(heartbeat.timeoutMs)\n");
    r.append("            close()\n");
    r.append("          }\n");
    r.append("          current\n");
    r.append("        }\n");
    r.append("        previous?.cancel()\n");
    r.append("        send(buildJsonObject { put(\"kind\", \"ping\") })\n");
    r.append("      }\n");
    r.append("    }\n");
    r.append("  }\n");
    r.append("\n");
    r.append("  ");
    r
}

/// `close`: closes the socket, settles every pending call with `null`, cancels the scope.
pub open spec fn transport_close_text(named: Seq<char>) -> Seq<char> {
    "/// Closes the socket and settles every pending `request` with `null` — a value, not an\n"@
        + "  /// error — which every waiting `"@
        + named
        + "WsClient` method reads as the transport-failure\n"@
        + "  /// fault, then cancels the scope `frames` hands out, tearing every dispatcher reading it\n"@
        + "  /// down along with it.\n"@
        + "  fun close() {\n"@
        + "    if (closed) return\n"@
        + "    closed = true\n"@
        + "    socket.close()\n"@
        + "    val watcher = synchronized(this) { pongJob }\n"@
        + "    watcher?.cancel()\n"@
        + "    val settled = synchronized(this) {\n"@
        + "      val waiting = pending.values.toList()\n"@
        + "      pending.clear()\n"@
        + "      waiting\n"@
        + "    }\n"@
        + "    for (deferred in settled) deferred.complete(null)\n"@
        + "    scope.cancel()\n"@
        + "  }"@
}

pub fn transport_close_stmt(named: &str) -> (r: String)
    ensures
        r@ == transport_close_text(named@),
{
    let mut r = String::from_str("/// Closes the socket and settles every pending `request` with `null` — a value, not an\n");
    r.append("  /// error — which every waiting `");
    r.append(named);
    r.append("WsClient` method reads as the transport-failure\n");
    r.append("  /// fault, then cancels the scope `frames` hands out, tearing every dispatcher reading it\n");
    r.append("  /// down along with it.\n");
    r.append("  fun close() {\n");
    r.append("    if (closed) return\n");
    r.append("    closed = true\n");
    r.append("    socket.close()\n");
    r.append("    val watcher = synchronized(this) { pongJob }\n");
    r.append("    watcher?.cancel()\n");
    r.append("    val settled = synchronized(this) {\n");
    r.append("      val waiting = pending.values.toList()\n");
    r.append("      pending.clear()\n");
    r.append("      waiting\n");
    r.append("    }\n");
    r.append("    for (deferred in settled) deferred.complete(null)\n");
    r.append("    scope.cancel()\n");
    r.append("  }");
    r
}

/// The client class around its methods.
pub open spec fn client_class_layout_text(named: Seq<char>, methods: Seq<char>) -> Seq<char> {
    "/// A `"@
        + named
        + "` caller over `ws_rpc`.\n"@
        + "class "@
        + named
        + "WsClient(private val transport: "@
        + named
        + "WsTransport) {\n"@
        + methods
        + "\n"@
        + "}"@
}

pub fn client_class_layout(named: &str, methods: &str) -> (r: String)
    ensures
        r@ == client_class_layout_text(named@, methods@),
{
    let mut r = String::from_str("/// A `");
    r.append(named);
    r.append("` caller over `ws_rpc`.\n");
    r.append("class ");
    r.append(named);
    r.append("WsClient(private val transport: ");
    r.append(named);
    r.append("WsTransport) {\n");
    r.append(methods);
    r.append("\n");
    r.append("}");
    r
}

/// A client method's doc line.
pub open spec fn method_doc_text(wire: Seq<char>) -> Seq<char> {
    "  /// Calls `"@
        + wire
        + "` over `ws_rpc`."@
}

pub fn method_doc(wire: &str) -> (r: String)
    ensures
        r@ == method_doc_text(wire@),
{
    let mut r = String::from_str("  /// Calls `");
    r.append(wire);
    r.append("` over `ws_rpc`.");
    r
}

/// A one-way client method: sends a `notify` frame and throws the ws refusal when it cannot.
pub open spec fn one_way_method_text(doc: Seq<char>, call: Seq<char>, req_ty: Seq<char>, wire: Seq<char>, named: Seq<char>, fn_prefix: Seq<char>) -> Seq<char> {
    doc
        + "\n"@
        + "  suspend fun "@
        + call
        + "(req: "@
        + req_ty
        + ") {\n"@
        + "    try {\n"@
        + "      transport.notify(\""@
        + wire
        + "\", Json.encodeToJsonElement(serializer<"@
        + req_ty
        + ">(), req))\n"@
        + "    } catch (uncarried: Throwable) {\n"@
        + "      throw "@
        + named
        + "WsRefusal("@
        + fn_prefix
        + "WsTransportFailure(\""@
        + wire
        + "\", uncarried.toString()))\n"@
        + "    }\n"@
        + "  }"@
}

pub fn one_way_method_layout(doc: &str, call: &str, req_ty: &str, wire: &str, named: &str, fn_prefix: &str) -> (r: String)
    ensures
        r@ == one_way_method_text(doc@, call@, req_ty@, wire@, named@, fn_prefix@),
{
    let mut r = String::from_str(doc);
    r.append("\n");
    r.append("  suspend fun ");
    r.append(call);
    r.append("(req: ");
    r.append(req_ty);
    r.append(") {\n");
    r.append("    try {\n");
    r.append("      transport.notify(\"");
    r.append(wire);
    r.append("\", Json.encodeToJsonElement(serializer<");
    r.append(req_ty);
    r.append(">(), req))\n");
    r.append("    } catch (uncarried: Throwable) {\n");
    r.append("      throw ");
    r.append(named);
    r.append("WsRefusal(");
    r.append(fn_prefix);
    r.append("WsTransportFailure(\"");
    r.append(wire);
    r.append("\", uncarried.toString()))\n");
    r.append("    }\n");
    r.append("  }");
    r
}

/// A reply client method: sends a `request` frame and answers the sealed result.
pub open spec fn reply_method_text(doc: Seq<char>, call: Seq<char>, req_ty: Seq<char>, result: Seq<char>, wire: Seq<char>, fn_prefix: Seq<char>, decode: Seq<char>) -> Seq<char> {
    doc
        + "\n"@
        + "  suspend fun "@
        + call
        + "(req: "@
        + req_ty
        + "): "@
        + result
        + " {\n"@
        + "    val reply = try {\n"@
        + "      transport.request(\""@
        + wire
        + "\", Json.encodeToJsonElement(serializer<"@
        + req_ty
        + ">(), req))\n"@
        + "    } catch (uncarried: Throwable) {\n"@
        + "      return "@
        + result
        + ".Fault("@
        + fn_prefix
        + "WsTransportFailure(\""@
        + wire
        + "\", uncarried.toString()))\n"@
        + "    }\n"@
        + "    if (reply == null) {\n"@
        + "      return "@
        + result
        + ".Fault(\n"@
        + "        "@
        + fn_prefix
        + "WsTransportFailure(\""@
        + wire
        + "\", \"the connection closed before a reply arrived\"),\n"@
        + "      )\n"@
        + "    }\n"@
        + decode
        + "}"@
}

pub fn reply_method_layout(doc: &str, call: &str, req_ty: &str, result: &str, wire: &str, fn_prefix: &str, decode: &str) -> (r: String)
    ensures
        r@ == reply_method_text(doc@, call@, req_ty@, result@, wire@, fn_prefix@, decode@),
{
    let mut r = String::from_str(doc);
    r.append("\n");
    r.append("  suspend fun ");
    r.append(call);
    r.append("(req: ");
    r.append(req_ty);
    r.append("): ");
    r.append(result);
    r.append(" {\n");
    r.append("    val reply = try {\n");
    r.append("      transport.request(\"");
    r.append(wire);
    r.append("\", Json.encodeToJsonElement(serializer<");
    r.append(req_ty);
    r.append(">(), req))\n");
    r.append("    } catch (uncarried: Throwable) {\n");
    r.append("      return ");
    r.append(result);
    r.append(".Fault(");
    r.append(fn_prefix);
    r.append("WsTransportFailure(\"");
    r.append(wire);
    r.append("\", uncarried.toString()))\n");
    r.append("    }\n");
    r.append("    if (reply == null) {\n");
    r.append("      return ");
    r.append(result);
    r.append(".Fault(\n");
    r.append("        ");
    r.append(fn_prefix);
    r.append("WsTransportFailure(\"");
    r.append(wire);
    r.append("\", \"the connection closed before a reply arrived\"),\n");
    r.append("      )\n");
    r.append("    }\n");
    r.append(decode);
    r.append("}");
    r
}

/// The reply's `ok`/`value`/`error` read into the sealed result.
pub open spec fn reply_decode_text(success_block: Seq<char>, result: Seq<char>, fields: Seq<char>, fn_prefix: Seq<char>, wire: Seq<char>, error_ty: Seq<char>) -> Seq<char> {
    "    val ok = (reply[\"ok\"] as? JsonPrimitive)?.booleanOrNull ?: false\n"@
        + "    if (ok) {\n"@
        + success_block
        + "    }\n"@
        + "    val error = reply[\"error\"]\n"@
        + "    val isServiceFault = (error as? JsonObject)?.get(\"isServiceFault\")\n"@
        + "      ?.let { (it as? JsonPrimitive)?.booleanOrNull } ?: false\n"@
        + "    if (isServiceFault) {\n"@
        + "      return try {\n"@
        + "        "@
        + result
        + ".Fault(\n"@
        + "          Json.decodeFromJsonElement(serializer<"@
        + fields
        + ">(), error.getValue(\"fault\")),\n"@
        + "        )\n"@
        + "      } catch (rejected: Throwable) {\n"@
        + "        "@
        + result
        + ".Fault("@
        + fn_prefix
        + "WsFailedValidation(\""@
        + wire
        + "\", rejected.toString()))\n"@
        + "      }\n"@
        + "    }\n"@
        + "    return try {\n"@
        + "      "@
        + result
        + ".Declared(Json.decodeFromJsonElement(serializer<"@
        + error_ty
        + ">(), error ?: JsonNull))\n"@
        + "    } catch (rejected: Throwable) {\n"@
        + "      "@
        + result
        + ".Fault("@
        + fn_prefix
        + "WsFailedValidation(\""@
        + wire
        + "\", rejected.toString()))\n"@
        + "    }\n"@
}

pub fn reply_decode_layout(success_block: &str, result: &str, fields: &str, fn_prefix: &str, wire: &str, error_ty: &str) -> (r: String)
    ensures
        r@ == reply_decode_text(success_block@, result@, fields@, fn_prefix@, wire@, error_ty@),
{
    let mut r = String::from_str("    val ok = (reply[\"ok\"] as? JsonPrimitive)?.booleanOrNull ?: false\n");
    r.append("    if (ok) {\n");
    r.append(success_block);
    r.append("    }\n");
    r.append("    val error = reply[\"error\"]\n");
    r.append("    val isServiceFault = (error as? JsonObject)?.get(\"isServiceFault\")\n");
    r.append("      ?.let { (it as? JsonPrimitive)?.booleanOrNull } ?: false\n");
    r.append("    if (isServiceFault) {\n");
    r.append("      return try {\n");
    r.append("        ");
    r.append(result);
    r.append(".Fault(\n");
    r.append("          Json.decodeFromJsonElement(serializer<");
    r.append(fields);
    r.append(">(), error.getValue(\"fault\")),\n");
    r.append("        )\n");
    r.append("      } catch (rejected: Throwable) {\n");
    r.append("        ");
    r.append(result);
    r.append(".Fault(");
    r.append(fn_prefix);
    r.append("WsFailedValidation(\"");
    r.append(wire);
    r.append("\", rejected.toString()))\n");
    r.append("      }\n");
    r.append("    }\n");
    r.append("    return try {\n");
    r.append("      ");
    r.append(result);
    r.append(".Declared(Json.decodeFromJsonElement(serializer<");
    r.append(error_ty);
    r.append(">(), error ?: JsonNull))\n");
    r.append("    } catch (rejected: Throwable) {\n");
    r.append("      ");
    r.append(result);
    r.append(".Fault(");
    r.append(fn_prefix);
    r.append("WsFailedValidation(\"");
    r.append(wire);
    r.append("\", rejected.toString()))\n");
    r.append("    }\n");
    r
}

/// A unit success: the field-less `Ok` member.
pub open spec fn unit_success_text(result: Seq<char>) -> Seq<char> {
    "      return "@
        + result
        + ".Ok\n"@
}

pub fn unit_success_block(result: &str) -> (r: String)
    ensures
        r@ == unit_success_text(result@),
{
    let mut r = String::from_str("      return ");
    r.append(result);
    r.append(".Ok\n");
    r
}

/// A valued success, decoded through the generated codec.
pub open spec fn value_success_text(result: Seq<char>, success_ty: Seq<char>, fn_prefix: Seq<char>, wire: Seq<char>) -> Seq<char> {
    "      return try {\n"@
        + "        "@
        + result
        + ".Ok(Json.decodeFromJsonElement(serializer<"@
        + success_ty
        + ">(), reply.getValue(\"value\")))\n"@
        + "      } catch (rejected: Throwable) {\n"@
        + "        "@
        + result
        + ".Fault("@
        + fn_prefix
        + "WsFailedValidation(\""@
        + wire
        + "\", rejected.toString()))\n"@
        + "      }\n"@
}

pub fn value_success_block(result: &str, success_ty: &str, fn_prefix: &str, wire: &str) -> (r: String)
    ensures
        r@ == value_success_text(result@, success_ty@, fn_prefix@, wire@),
{
    let mut r = String::from_str("      return try {\n");
    r.append("        ");
    r.append(result);
    r.append(".Ok(Json.decodeFromJsonElement(serializer<");
    r.append(success_ty);
    r.append(">(), reply.getValue(\"value\")))\n");
    r.append("      } catch (rejected: Throwable) {\n");
    r.append("        ");
    r.append(result);
    r.append(".Fault(");
    r.append(fn_prefix);
    r.append("WsFailedValidation(\"");
    r.append(wire);
    r.append("\", rejected.toString()))\n");
    r.append("      }\n");
    r
}

/// A one-way handler member.
pub open spec fn one_way_handler_text(call: Seq<char>, req_ty: Seq<char>) -> Seq<char> {
    "  suspend fun "@
        + call
        + "(req: "@
        + req_ty
        + ")"@
}

pub fn one_way_handler(call: &str, req_ty: &str) -> (r: String)
    ensures
        r@ == one_way_handler_text(call@, req_ty@),
{
    let mut r = String::from_str("  suspend fun ");
    r.append(call);
    r.append("(req: ");
    r.append(req_ty);
    r.append(")");
    r
}

/// A reply handler member, answering the sealed result.
pub open spec fn reply_handler_text(call: Seq<char>, req_ty: Seq<char>, result: Seq<char>) -> Seq<char> {
    "  suspend fun "@
        + call
        + "(req: "@
        + req_ty
        + "): "@
        + result
}

pub fn reply_handler(call: &str, req_ty: &str, result: &str) -> (r: String)
    ensures
        r@ == reply_handler_text(call@, req_ty@, result@),
{
    let mut r = String::from_str("  suspend fun ");
    r.append(call);
    r.append("(req: ");
    r.append(req_ty);
    r.append("): ");
    r.append(result);
    r
}

/// The handlers interface around its members.
pub open spec fn handlers_interface_layout_text(named: Seq<char>, members: Seq<char>) -> Seq<char> {
    "/// What a `"@
        + named
        + "` `ws_rpc` attachment dispatches an inbound frame to: one handler per\n"@
        + "/// declared operation. A reply operation answers the same sealed result the client\n"@
        + "/// reads rather than throwing its declared error; anything a handler throws regardless\n"@
        + "/// reaches `onFault` instead.\n"@
        + "interface "@
        + named
        + "Handlers {\n"@
        + members
        + "\n"@
        + "}"@
}

pub fn handlers_interface_layout(named: &str, members: &str) -> (r: String)
    ensures
        r@ == handlers_interface_layout_text(named@, members@),
{
    let mut r = String::from_str("/// What a `");
    r.append(named);
    r.append("` `ws_rpc` attachment dispatches an inbound frame to: one handler per\n");
    r.append("/// declared operation. A reply operation answers the same sealed result the client\n");
    r.append("/// reads rather than throwing its declared error; anything a handler throws regardless\n");
    r.append("/// reaches `onFault` instead.\n");
    r.append("interface ");
    r.append(named);
    r.append("Handlers {\n");
    r.append(members);
    r.append("\n");
    r.append("}");
    r
}

/// The attachment: its scope, `detach`, and `share`.
pub open spec fn attachment_class_text(named: Seq<char>) -> Seq<char> {
    "/// One socket's `"@
        + named
        + "` dispatcher: the scope it and every service it shared the\n"@
        + "/// socket with run on, and the hook that shares that socket.\n"@
        + "class "@
        + named
        + "WsAttachment internal constructor(\n"@
        + "  val scope: CoroutineScope,\n"@
        + "  private val send: (String) -> Unit,\n"@
        + "  private val job: Job,\n"@
        + ") {\n"@
        + "  private val shared = mutableListOf<() -> Unit>()\n"@
        + "\n"@
        + "  /// Detaches every service this attachment shared the socket with, then this one.\n"@
        + "  fun detach() {\n"@
        + "    shared.toList().forEach { it() }\n"@
        + "    shared.clear()\n"@
        + "    job.cancel()\n"@
        + "  }\n"@
        + "\n"@
        + "  /// Hands the guarded sender and this attachment's scope to another service's\n"@
        + "  /// dispatcher. The detach it returns also runs when this attachment detaches. Throws\n"@
        + "  /// once this attachment has detached.\n"@
        + "  fun share(attach: (send: (String) -> Unit, scope: CoroutineScope) -> () -> Unit): () -> Unit {\n"@
        + "    check(job.isActive) { \"the socket is closed\" }\n"@
        + "    val detachShared = attach(send, scope)\n"@
        + "    shared += detachShared\n"@
        + "    return detachShared\n"@
        + "  }\n"@
        + "}"@
}

pub fn attachment_class(named: &str) -> (r: String)
    ensures
        r@ == attachment_class_text(named@),
{
    let mut r = String::from_str("/// One socket's `");
    r.append(named);
    r.append("` dispatcher: the scope it and every service it shared the\n");
    r.append("/// socket with run on, and the hook that shares that socket.\n");
    r.append("class ");
    r.append(named);
    r.append("WsAttachment internal constructor(\n");
    r.append("  val scope: CoroutineScope,\n");
    r.append("  private val send: (String) -> Unit,\n");
    r.append("  private val job: Job,\n");
    r.append(") {\n");
    r.append("  private val shared = mutableListOf<() -> Unit>()\n");
    r.append("\n");
    r.append("  /// Detaches every service this attachment shared the socket with, then this one.\n");
    r.append("  fun detach() {\n");
    r.append("    shared.toList().forEach { it() }\n");
    r.append("    shared.clear()\n");
    r.append("    job.cancel()\n");
    r.append("  }\n");
    r.append("\n");
    r.append("  /// Hands the guarded sender and this attachment's scope to another service's\n");
    r.append("  /// dispatcher. The detach it returns also runs when this attachment detaches. Throws\n");
    r.append("  /// once this attachment has detached.\n");
    r.append("  fun share(attach: (send: (String) -> Unit, scope: CoroutineScope) -> () -> Unit): () -> Unit {\n");
    r.append("    check(job.isActive) { \"the socket is closed\" }\n");
    r.append("    val detachShared = attach(send, scope)\n");
    r.append("    shared += detachShared\n");
    r.append("    return detachShared\n");
    r.append("  }\n");
    r.append("}");
    r
}

/// `attach{named}WsDispatcher`: dispatches every inbound frame for this service on its scope.
pub open spec fn attach_dispatcher_text(named: Seq<char>, fields: Seq<char>, fn_prefix: Seq<char>) -> Seq<char> {
    "/// Attaches `handlers` to `frames`, dispatching every inbound `"@
        + named
        + "` frame, decoded\n"@
        + "/// through the generated codec, to its own handler on `frames`' own scope — so closing\n"@
        + "/// the transport this attachment reads from ends it too. A frame naming another\n"@
        + "/// service, or carrying no operation at all, is left on `frames.inbound` for that\n"@
        + "/// service's own attachment; one naming an operation this service does not declare\n"@
        + "/// reaches `onFault` instead. Every frame that carried an id is answered, one-way\n"@
        + "/// operations included, so a caller waiting on a reply is never left hanging.\n"@
        + "fun attach"@
        + named
        + "WsDispatcher(\n"@
        + "  frames: "@
        + named
        + "WsFrames,\n"@
        + "  handlers: "@
        + named
        + "Handlers,\n"@
        + "  onFault: ("@
        + fields
        + ") -> Unit,\n"@
        + "): "@
        + named
        + "WsAttachment {\n"@
        + "  val job = frames.scope.launch {\n"@
        + "    frames.inbound.collect { text ->\n"@
        + "      val frame = runCatching { Json.parseToJsonElement(text).jsonObject }.getOrNull() ?: return@collect\n"@
        + "      if ((frame[\"service\"] as? JsonPrimitive)?.contentOrNull != \""@
        + named
        + "\") return@collect\n"@
        + "      val id = (frame[\"id\"] as? JsonPrimitive)?.contentOrNull\n"@
        + "      val operation = (frame[\"operation\"] as? JsonPrimitive)?.contentOrNull ?: return@collect\n"@
        + "      launch {\n"@
        + "        "@
        + fn_prefix
        + "WsDispatch(id, operation, frame[\"payload\"], handlers, frames.send, onFault)\n"@
        + "      }\n"@
        + "    }\n"@
        + "  }\n"@
        + "  return "@
        + named
        + "WsAttachment(frames.scope, frames.send, job)\n"@
        + "}"@
}

pub fn attach_dispatcher_layout(named: &str, fields: &str, fn_prefix: &str) -> (r: String)
    ensures
        r@ == attach_dispatcher_text(named@, fields@, fn_prefix@),
{
    let mut r = String::from_str("/// Attaches `handlers` to `frames`, dispatching every inbound `");
    r.append(named);
    r.append("` frame, decoded\n");
    r.append("/// through the generated codec, to its own handler on `frames`' own scope — so closing\n");
    r.append("/// the transport this attachment reads from ends it too. A frame naming another\n");
    r.append("/// service, or carrying no operation at all, is left on `frames.inbound` for that\n");
    r.append("/// service's own attachment; one naming an operation this service does not declare\n");
    r.append("/// reaches `onFault` instead. Every frame that carried an id is answered, one-way\n");
    r.append("/// operations included, so a caller waiting on a reply is never left hanging.\n");
    r.append("fun attach");
    r.append(named);
    r.append("WsDispatcher(\n");
    r.append("  frames: ");
    r.append(named);
    r.append("WsFrames,\n");
    r.append("  handlers: ");
    r.append(named);
    r.append("Handlers,\n");
    r.append("  onFault: (");
    r.append(fields);
    r.append(") -> Unit,\n");
    r.append("): ");
    r.append(named);
    r.append("WsAttachment {\n");
    r.append("  val job = frames.scope.launch {\n");
    r.append("    frames.inbound.collect { text ->\n");
    r.append("      val frame = runCatching { Json.parseToJsonElement(text).jsonObject }.getOrNull() ?: return@collect\n");
    r.append("      if ((frame[\"service\"] as? JsonPrimitive)?.contentOrNull != \"");
    r.append(named);
    r.append("\") return@collect\n");
    r.append("      val id = (frame[\"id\"] as? JsonPrimitive)?.contentOrNull\n");
    r.append("      val operation = (frame[\"operation\"] as? JsonPrimitive)?.contentOrNull ?: return@collect\n");
    r.append("      launch {\n");
    r.append("        ");
    r.append(fn_prefix);
    r.append("WsDispatch(id, operation, frame[\"payload\"], handlers, frames.send, onFault)\n");
    r.append("      }\n");
    r.append("    }\n");
    r.append("  }\n");
    r.append("  return ");
    r.append(named);
    r.append("WsAttachment(frames.scope, frames.send, job)\n");
    r.append("}");
    r
}

/// The reply frame written back over `send`, correlated to the inbound `id`.
pub open spec fn reply_frame_text(named: Seq<char>, ok: Seq<char>, key: Seq<char>, value_expr: Seq<char>) -> Seq<char> {
    "buildJsonObject { put(\"kind\", \"reply\"); put(\"id\", id); put(\"service\", \""@
        + named
        + "\"); put(\"ok\", "@
        + ok
        + "); put(\""@
        + key
        + "\", "@
        + value_expr
        + ") }.toString()"@
}

pub fn reply_frame_expr(named: &str, ok: &str, key: &str, value_expr: &str) -> (r: String)
    ensures
        r@ == reply_frame_text(named@, ok@, key@, value_expr@),
{
    let mut r = String::from_str("buildJsonObject { put(\"kind\", \"reply\"); put(\"id\", id); put(\"service\", \"");
    r.append(named);
    r.append("\"); put(\"ok\", ");
    r.append(ok);
    r.append("); put(\"");
    r.append(key);
    r.append("\", ");
    r.append(value_expr);
    r.append(") }.toString()");
    r
}

/// The `{ isServiceFault, fault }` envelope.
pub open spec fn fault_envelope_text(fields: Seq<char>, fault_expr: Seq<char>) -> Seq<char> {
    "buildJsonObject { put(\"isServiceFault\", true); put(\"fault\", Json.encodeToJsonElement(serializer<"@
        + fields
        + ">(), "@
        + fault_expr
        + ")) }"@
}

pub fn fault_envelope_layout(fields: &str, fault_expr: &str) -> (r: String)
    ensures
        r@ == fault_envelope_text(fields@, fault_expr@),
{
    let mut r = String::from_str("buildJsonObject { put(\"isServiceFault\", true); put(\"fault\", Json.encodeToJsonElement(serializer<");
    r.append(fields);
    r.append(">(), ");
    r.append(fault_expr);
    r.append(")) }");
    r
}

/// Answers a waiting request (one with an `id`) with a frame.
pub open spec fn fault_reply_layout_text(frame: Seq<char>) -> Seq<char> {
    "        if (id != null) send("@
        + frame
        + ")\n"@
}

pub fn fault_reply_layout(frame: &str) -> (r: String)
    ensures
        r@ == fault_reply_layout_text(frame@),
{
    let mut r = String::from_str("        if (id != null) send(");
    r.append(frame);
    r.append(")\n");
    r
}

/// The unknown-operation fault.
pub open spec fn unknown_fault_text(fn_prefix: Seq<char>) -> Seq<char> {
    fn_prefix
        + "WsUnknownOperation(operation, \"this service answers to no operation by that name\")"@
}

pub fn unknown_fault(fn_prefix: &str) -> (r: String)
    ensures
        r@ == unknown_fault_text(fn_prefix@),
{
    let mut r = String::from_str(fn_prefix);
    r.append("WsUnknownOperation(operation, \"this service answers to no operation by that name\")");
    r
}

/// The dispatcher: one arm per operation and an `else` answering the unknown-operation fault.
pub open spec fn dispatch_layout_text(fn_prefix: Seq<char>, named: Seq<char>, fields: Seq<char>, arms: Seq<char>, unknown_fault: Seq<char>, unknown_reply: Seq<char>) -> Seq<char> {
    "private suspend fun "@
        + fn_prefix
        + "WsDispatch(\n"@
        + "  id: String?,\n"@
        + "  operation: String,\n"@
        + "  payload: JsonElement?,\n"@
        + "  handlers: "@
        + named
        + "Handlers,\n"@
        + "  send: (String) -> Unit,\n"@
        + "  onFault: ("@
        + fields
        + ") -> Unit,\n"@
        + ") {\n"@
        + "  when (operation) {\n"@
        + arms
        + "\n"@
        + "    else -> {\n"@
        + "      val fault = "@
        + unknown_fault
        + "\n"@
        + "      onFault(fault)\n"@
        + unknown_reply
        + "    }\n"@
        + "  }\n"@
        + "}"@
}

pub fn dispatch_layout(fn_prefix: &str, named: &str, fields: &str, arms: &str, unknown_fault: &str, unknown_reply: &str) -> (r: String)
    ensures
        r@ == dispatch_layout_text(fn_prefix@, named@, fields@, arms@, unknown_fault@, unknown_reply@),
{
    let mut r = String::from_str("private suspend fun ");
    r.append(fn_prefix);
    r.append("WsDispatch(\n");
    r.append("  id: String?,\n");
    r.append("  operation: String,\n");
    r.append("  payload: JsonElement?,\n");
    r.append("  handlers: ");
    r.append(named);
    r.append("Handlers,\n");
    r.append("  send: (String) -> Unit,\n");
    r.append("  onFault: (");
    r.append(fields);
    r.append(") -> Unit,\n");
    r.append(") {\n");
    r.append("  when (operation) {\n");
    r.append(arms);
    r.append("\n");
    r.append("    else -> {\n");
    r.append("      val fault = ");
    r.append(unknown_fault);
    r.append("\n");
    r.append("      onFault(fault)\n");
    r.append(unknown_reply);
    r.append("    }\n");
    r.append("  }\n");
    r.append("}");
    r
}

/// A dispatch arm's opening: the payload decoded, or a failed-validation fault.
pub open spec fn arm_decode_text(wire: Seq<char>, req_ty: Seq<char>, fn_prefix: Seq<char>, decode_fault: Seq<char>) -> Seq<char> {
    "    \""@
        + wire
        + "\" -> {\n"@
        + "      val decoded = try {\n"@
        + "        Json.decodeFromJsonElement(serializer<"@
        + req_ty
        + ">(), payload ?: JsonNull)\n"@
        + "      } catch (rejected: Throwable) {\n"@
        + "        val fault = "@
        + fn_prefix
        + "WsFailedValidation(\""@
        + wire
        + "\", rejected.toString())\n"@
        + "        onFault(fault)\n"@
        + decode_fault
        + "        return\n"@
        + "      }\n"@
}

pub fn arm_decode_layout(wire: &str, req_ty: &str, fn_prefix: &str, decode_fault: &str) -> (r: String)
    ensures
        r@ == arm_decode_text(wire@, req_ty@, fn_prefix@, decode_fault@),
{
    let mut r = String::from_str("    \"");
    r.append(wire);
    r.append("\" -> {\n");
    r.append("      val decoded = try {\n");
    r.append("        Json.decodeFromJsonElement(serializer<");
    r.append(req_ty);
    r.append(">(), payload ?: JsonNull)\n");
    r.append("      } catch (rejected: Throwable) {\n");
    r.append("        val fault = ");
    r.append(fn_prefix);
    r.append("WsFailedValidation(\"");
    r.append(wire);
    r.append("\", rejected.toString())\n");
    r.append("        onFault(fault)\n");
    r.append(decode_fault);
    r.append("        return\n");
    r.append("      }\n");
    r
}

/// A one-way arm's close: the handler called, a throw reported, the request acknowledged.
pub open spec fn one_way_arm_tail_text(call: Seq<char>, fn_prefix: Seq<char>, wire: Seq<char>, panic_fault: Seq<char>, ack: Seq<char>) -> Seq<char> {
    "      try {\n"@
        + "        handlers."@
        + call
        + "(decoded)\n"@
        + "      } catch (unexpected: Throwable) {\n"@
        + "        val fault = "@
        + fn_prefix
        + "WsHandlerPanic(\""@
        + wire
        + "\", unexpected.toString())\n"@
        + "        onFault(fault)\n"@
        + panic_fault
        + "        return\n"@
        + "      }\n"@
        + "      if (id != null) send("@
        + ack
        + ")\n"@
        + "    }\n"@
}

pub fn one_way_arm_tail(call: &str, fn_prefix: &str, wire: &str, panic_fault: &str, ack: &str) -> (r: String)
    ensures
        r@ == one_way_arm_tail_text(call@, fn_prefix@, wire@, panic_fault@, ack@),
{
    let mut r = String::from_str("      try {\n");
    r.append("        handlers.");
    r.append(call);
    r.append("(decoded)\n");
    r.append("      } catch (unexpected: Throwable) {\n");
    r.append("        val fault = ");
    r.append(fn_prefix);
    r.append("WsHandlerPanic(\"");
    r.append(wire);
    r.append("\", unexpected.toString())\n");
    r.append("        onFault(fault)\n");
    r.append(panic_fault);
    r.append("        return\n");
    r.append("      }\n");
    r.append("      if (id != null) send(");
    r.append(ack);
    r.append(")\n");
    r.append("    }\n");
    r
}

/// The encoded success value of a reply arm.
pub open spec fn ok_value_text(success_ty: Seq<char>) -> Seq<char> {
    "Json.encodeToJsonElement(serializer<"@
        + success_ty
        + ">(), answered.value)"@
}

pub fn ok_value_layout(success_ty: &str) -> (r: String)
    ensures
        r@ == ok_value_text(success_ty@),
{
    let mut r = String::from_str("Json.encodeToJsonElement(serializer<");
    r.append(success_ty);
    r.append(">(), answered.value)");
    r
}

/// The encoded declared error of a reply arm.
pub open spec fn declared_value_text(error_ty: Seq<char>) -> Seq<char> {
    "Json.encodeToJsonElement(serializer<"@
        + error_ty
        + ">(), answered.error)"@
}

pub fn declared_value_layout(error_ty: &str) -> (r: String)
    ensures
        r@ == declared_value_text(error_ty@),
{
    let mut r = String::from_str("Json.encodeToJsonElement(serializer<");
    r.append(error_ty);
    r.append(">(), answered.error)");
    r
}

/// A reply arm's close: the handler called and its sealed result answered arm by arm.
pub open spec fn reply_arm_tail_text(call: Seq<char>, fn_prefix: Seq<char>, wire: Seq<char>, panic_fault: Seq<char>, result: Seq<char>, ok_frame: Seq<char>, declared_frame: Seq<char>, fault_frame: Seq<char>) -> Seq<char> {
    "      val answered = try {\n"@
        + "        handlers."@
        + call
        + "(decoded)\n"@
        + "      } catch (unexpected: Throwable) {\n"@
        + "        val fault = "@
        + fn_prefix
        + "WsHandlerPanic(\""@
        + wire
        + "\", unexpected.toString())\n"@
        + "        onFault(fault)\n"@
        + panic_fault
        + "        return\n"@
        + "      }\n"@
        + "      if (id != null) {\n"@
        + "        when (answered) {\n"@
        + "          is "@
        + result
        + ".Ok -> send("@
        + ok_frame
        + ")\n"@
        + "          is "@
        + result
        + ".Declared -> send("@
        + declared_frame
        + ")\n"@
        + "          is "@
        + result
        + ".Fault -> send("@
        + fault_frame
        + ")\n"@
        + "        }\n"@
        + "      }\n"@
        + "    }\n"@
}

pub fn reply_arm_tail(call: &str, fn_prefix: &str, wire: &str, panic_fault: &str, result: &str, ok_frame: &str, declared_frame: &str, fault_frame: &str) -> (r: String)
    ensures
        r@ == reply_arm_tail_text(call@, fn_prefix@, wire@, panic_fault@, result@, ok_frame@, declared_frame@, fault_frame@),
{
    let mut r = String::from_str("      val answered = try {\n");
    r.append("        handlers.");
    r.append(call);
    r.append("(decoded)\n");
    r.append("      } catch (unexpected: Throwable) {\n");
    r.append("        val fault = ");
    r.append(fn_prefix);
    r.append("WsHandlerPanic(\"");
    r.append(wire);
    r.append("\", unexpected.toString())\n");
    r.append("        onFault(fault)\n");
    r.append(panic_fault);
    r.append("        return\n");
    r.append("      }\n");
    r.append("      if (id != null) {\n");
    r.append("        when (answered) {\n");
    r.append("          is ");
    r.append(result);
    r.append(".Ok -> send(");
    r.append(ok_frame);
    r.append(")\n");
    r.append("          is ");
    r.append(result);
    r.append(".Declared -> send(");
    r.append(declared_frame);
    r.append(")\n");
    r.append("          is ");
    r.append(result);
    r.append(".Fault -> send(");
    r.append(fault_frame);
    r.append(")\n");
    r.append("        }\n");
    r.append("      }\n");
    r.append("    }\n");
    r
}

/// The doc of the transport-failure helper.
pub open spec fn transport_failure_doc_text(named: Seq<char>) -> Seq<char> {
    "The fault a `"@
        + named
        + "` `ws_rpc` client answers with when the transport could not carry a call: the frame never went out, or the reply never came back."@
}

pub fn transport_failure_doc(named: &str) -> (r: String)
    ensures
        r@ == transport_failure_doc_text(named@),
{
    let mut r = String::from_str("The fault a `");
    r.append(named);
    r.append("` `ws_rpc` client answers with when the transport could not carry a call: the frame never went out, or the reply never came back.");
    r
}

/// The doc of the failed-validation helper.
pub open spec fn failed_validation_doc_text(named: Seq<char>) -> Seq<char> {
    "The fault a `"@
        + named
        + "` `ws_rpc` reply answers with when it will not become the operation's own declared type through the generated codec."@
}

pub fn failed_validation_doc(named: &str) -> (r: String)
    ensures
        r@ == failed_validation_doc_text(named@),
{
    let mut r = String::from_str("The fault a `");
    r.append(named);
    r.append("` `ws_rpc` reply answers with when it will not become the operation's own declared type through the generated codec.");
    r
}

/// The doc of the unknown-operation helper.
pub open spec fn unknown_operation_doc_text(named: Seq<char>) -> Seq<char> {
    "The fault a `"@
        + named
        + "` `ws_rpc` attachment answers with when an inbound frame names an operation nothing on this service declares."@
}

pub fn unknown_operation_doc(named: &str) -> (r: String)
    ensures
        r@ == unknown_operation_doc_text(named@),
{
    let mut r = String::from_str("The fault a `");
    r.append(named);
    r.append("` `ws_rpc` attachment answers with when an inbound frame names an operation nothing on this service declares.");
    r
}

/// The doc of the handler-panic helper.
pub open spec fn handler_panic_doc_text(named: Seq<char>) -> Seq<char> {
    "The fault a `"@
        + named
        + "` `ws_rpc` attachment answers with when a handler raises anything at all rather than answering the sealed result."@
}

pub fn handler_panic_doc(named: &str) -> (r: String)
    ensures
        r@ == handler_panic_doc_text(named@),
{
    let mut r = String::from_str("The fault a `");
    r.append(named);
    r.append("` `ws_rpc` attachment answers with when a handler raises anything at all rather than answering the sealed result.");
    r
}

/// One fault helper building the fault fields with its own kind.
pub open spec fn fault_helper_text(doc: Seq<char>, fn_prefix: Seq<char>, suffix: Seq<char>, fields: Seq<char>, named: Seq<char>, kind: Seq<char>) -> Seq<char> {
    "/// "@
        + doc
        + "\n"@
        + "private fun "@
        + fn_prefix
        + suffix
        + "(operation: String, detail: String): "@
        + fields
        + " = "@
        + fields
        + "(\n"@
        + "  detail = detail,\n"@
        + "  kind = "@
        + named
        + "FaultKind."@
        + kind
        + ",\n"@
        + "  operation = operation,\n"@
        + ")"@
}

pub fn fault_helper_layout(doc: &str, fn_prefix: &str, suffix: &str, fields: &str, named: &str, kind: &str) -> (r: String)
    ensures
        r@ == fault_helper_text(doc@, fn_prefix@, suffix@, fields@, named@, kind@),
{
    let mut r = String::from_str("/// ");
    r.append(doc);
    r.append("\n");
    r.append("private fun ");
    r.append(fn_prefix);
    r.append(suffix);
    r.append("(operation: String, detail: String): ");
    r.append(fields);
    r.append(" = ");
    r.append(fields);
    r.append("(\n");
    r.append("  detail = detail,\n");
    r.append("  kind = ");
    r.append(named);
    r.append("FaultKind.");
    r.append(kind);
    r.append(",\n");
    r.append("  operation = operation,\n");
    r.append(")");
    r
}

} // verus!
