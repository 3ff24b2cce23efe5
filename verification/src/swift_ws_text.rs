//! The fixed Swift text of the `ws_rpc` client actor, with a hole for each name and piece it
//! fills in.

use vstd::prelude::*;

verus! {

/// The socket seam: four members, none of them naming a networking type.
pub open spec fn socket_type_text(named: Seq<char>) -> Seq<char> {
    "/// What binds a `"@
        + named
        + "` `ws_rpc` transport to a socket, in plain terms: send text out,\n"@
        + "/// close the connection, and hand every inbound text frame and the eventual close back through\n"@
        + "/// the two callbacks. Names no networking type.\n"@
        + "public protocol "@
        + named
        + "WsSocket: AnyObject, Sendable {\n"@
        + "  func send(_ text: String)\n"@
        + "  func close()\n"@
        + "  var onMessage: (@Sendable (String) -> Void)? { get set }\n"@
        + "  var onClose: (@Sendable () -> Void)? { get set }\n"@
        + "}"@
}

pub fn socket_type(named: &str) -> (r: String)
    ensures
        r@ == socket_type_text(named@),
{
    let mut r = String::from_str("/// What binds a `");
    r.append(named);
    r.append("` `ws_rpc` transport to a socket, in plain terms: send text out,\n");
    r.append("/// close the connection, and hand every inbound text frame and the eventual close back through\n");
    r.append("/// the two callbacks. Names no networking type.\n");
    r.append("public protocol ");
    r.append(named);
    r.append("WsSocket: AnyObject, Sendable {\n");
    r.append("  func send(_ text: String)\n");
    r.append("  func close()\n");
    r.append("  var onMessage: (@Sendable (String) -> Void)? { get set }\n");
    r.append("  var onClose: (@Sendable () -> Void)? { get set }\n");
    r.append("}");
    r
}

/// The heartbeat options: a 30 s interval, a 10 s pong timeout, and `nil` to turn probing off.
pub open spec fn options_type_text(named: Seq<char>) -> Seq<char> {
    "/// How often a `"@
        + named
        + "` `ws_rpc` transport probes the socket, and how long it waits for\n"@
        + "/// the answering pong. `heartbeat` left `nil` turns probing off.\n"@
        + "public struct "@
        + named
        + "WsOptions: Sendable {\n"@
        + "  public struct Heartbeat: Sendable {\n"@
        + "    public var intervalMs: Int\n"@
        + "    public var timeoutMs: Int\n"@
        + "    public init(intervalMs: Int, timeoutMs: Int) {\n"@
        + "      self.intervalMs = intervalMs\n"@
        + "      self.timeoutMs = timeoutMs\n"@
        + "    }\n"@
        + "  }\n"@
        + "  public var heartbeat: Heartbeat?\n"@
        + "  public init(heartbeat: Heartbeat? = Heartbeat(intervalMs: 30_000, timeoutMs: 10_000)) {\n"@
        + "    self.heartbeat = heartbeat\n"@
        + "  }\n"@
        + "}"@
}

pub fn options_type(named: &str) -> (r: String)
    ensures
        r@ == options_type_text(named@),
{
    let mut r = String::from_str("/// How often a `");
    r.append(named);
    r.append("` `ws_rpc` transport probes the socket, and how long it waits for\n");
    r.append("/// the answering pong. `heartbeat` left `nil` turns probing off.\n");
    r.append("public struct ");
    r.append(named);
    r.append("WsOptions: Sendable {\n");
    r.append("  public struct Heartbeat: Sendable {\n");
    r.append("    public var intervalMs: Int\n");
    r.append("    public var timeoutMs: Int\n");
    r.append("    public init(intervalMs: Int, timeoutMs: Int) {\n");
    r.append("      self.intervalMs = intervalMs\n");
    r.append("      self.timeoutMs = timeoutMs\n");
    r.append("    }\n");
    r.append("  }\n");
    r.append("  public var heartbeat: Heartbeat?\n");
    r.append("  public init(heartbeat: Heartbeat? = Heartbeat(intervalMs: 30_000, timeoutMs: 10_000)) {\n");
    r.append("    self.heartbeat = heartbeat\n");
    r.append("  }\n");
    r.append("}");
    r
}

/// The frame shapes and decode probes every operation method shares.
pub open spec fn support_types_text(named: Seq<char>, fault: Seq<char>) -> Seq<char> {
    "struct "@
        + named
        + "WsRequestFrame<Payload: Encodable>: Encodable {\n"@
        + "  let kind = \"request\"\n"@
        + "  let id: String\n"@
        + "  let service: String\n"@
        + "  let operation: String\n"@
        + "  let payload: Payload\n"@
        + "}\n"@
        + "\n"@
        + "struct "@
        + named
        + "WsNotifyFrame<Payload: Encodable>: Encodable {\n"@
        + "  let kind = \"notify\"\n"@
        + "  let service: String\n"@
        + "  let operation: String\n"@
        + "  let payload: Payload\n"@
        + "}\n"@
        + "\n"@
        + "struct "@
        + named
        + "WsFrameProbe: Decodable {\n"@
        + "  let kind: String\n"@
        + "  let id: String?\n"@
        + "  let service: String?\n"@
        + "}\n"@
        + "\n"@
        + "struct "@
        + named
        + "WsOkProbe: Decodable {\n"@
        + "  let ok: Bool\n"@
        + "}\n"@
        + "\n"@
        + "struct "@
        + named
        + "WsValueEnvelope<Success: Decodable>: Decodable {\n"@
        + "  let value: Success\n"@
        + "}\n"@
        + "\n"@
        + "struct "@
        + named
        + "WsDeclaredEnvelope<Declared: Decodable>: Decodable {\n"@
        + "  let error: Declared\n"@
        + "}\n"@
        + "\n"@
        + "struct "@
        + named
        + "WsFaultEnvelope: Decodable {\n"@
        + "  struct Marker: Decodable {\n"@
        + "    let isServiceFault: Bool?\n"@
        + "    let fault: "@
        + fault
        + "?\n"@
        + "  }\n"@
        + "  let error: Marker\n"@
        + "}"@
}

pub fn support_types_layout(named: &str, fault: &str) -> (r: String)
    ensures
        r@ == support_types_text(named@, fault@),
{
    let mut r = String::from_str("struct ");
    r.append(named);
    r.append("WsRequestFrame<Payload: Encodable>: Encodable {\n");
    r.append("  let kind = \"request\"\n");
    r.append("  let id: String\n");
    r.append("  let service: String\n");
    r.append("  let operation: String\n");
    r.append("  let payload: Payload\n");
    r.append("}\n");
    r.append("\n");
    r.append("struct ");
    r.append(named);
    r.append("WsNotifyFrame<Payload: Encodable>: Encodable {\n");
    r.append("  let kind = \"notify\"\n");
    r.append("  let service: String\n");
    r.append("  let operation: String\n");
    r.append("  let payload: Payload\n");
    r.append("}\n");
    r.append("\n");
    r.append("struct ");
    r.append(named);
    r.append("WsFrameProbe: Decodable {\n");
    r.append("  let kind: String\n");
    r.append("  let id: String?\n");
    r.append("  let service: String?\n");
    r.append("}\n");
    r.append("\n");
    r.append("struct ");
    r.append(named);
    r.append("WsOkProbe: Decodable {\n");
    r.append("  let ok: Bool\n");
    r.append("}\n");
    r.append("\n");
    r.append("struct ");
    r.append(named);
    r.append("WsValueEnvelope<Success: Decodable>: Decodable {\n");
    r.append("  let value: Success\n");
    r.append("}\n");
    r.append("\n");
    r.append("struct ");
    r.append(named);
    r.append("WsDeclaredEnvelope<Declared: Decodable>: Decodable {\n");
    r.append("  let error: Declared\n");
    r.append("}\n");
    r.append("\n");
    r.append("struct ");
    r.append(named);
    r.append("WsFaultEnvelope: Decodable {\n");
    r.append("  struct Marker: Decodable {\n");
    r.append("    let isServiceFault: Bool?\n");
    r.append("    let fault: ");
    r.append(fault);
    r.append("?\n");
    r.append("  }\n");
    r.append("  let error: Marker\n");
    r.append("}");
    r
}

/// The transport-failure fault helper.
pub open spec fn transport_failure_helper_text(named: Seq<char>, prefix: Seq<char>, fault: Seq<char>) -> Seq<char> {
    "/// The fault a `"@
        + named
        + "` `ws_rpc` call answers with when the transport could not carry it:\n"@
        + "/// the frame never went out, or the reply never came back before the socket closed.\n"@
        + "func "@
        + prefix
        + "WsTransportFailure(_ operation: String, _ detail: String) -> "@
        + fault
        + " {\n"@
        + "  "@
        + fault
        + "(detail: detail, field: nil, kind: .transportFailure, operation: operation)\n"@
        + "}"@
}

pub fn transport_failure_helper_layout(named: &str, prefix: &str, fault: &str) -> (r: String)
    ensures
        r@ == transport_failure_helper_text(named@, prefix@, fault@),
{
    let mut r = String::from_str("/// The fault a `");
    r.append(named);
    r.append("` `ws_rpc` call answers with when the transport could not carry it:\n");
    r.append("/// the frame never went out, or the reply never came back before the socket closed.\n");
    r.append("func ");
    r.append(prefix);
    r.append("WsTransportFailure(_ operation: String, _ detail: String) -> ");
    r.append(fault);
    r.append(" {\n");
    r.append("  ");
    r.append(fault);
    r.append("(detail: detail, field: nil, kind: .transportFailure, operation: operation)\n");
    r.append("}");
    r
}

/// The failed-validation fault helper.
pub open spec fn failed_validation_helper_text(named: Seq<char>, prefix: Seq<char>, fault: Seq<char>) -> Seq<char> {
    "/// The fault a `"@
        + named
        + "` `ws_rpc` call answers with when a reply will not become the operation's\n"@
        + "/// own declared success or error, or when a payload will not become the wire shape going out.\n"@
        + "func "@
        + prefix
        + "WsFailedValidation(_ operation: String, _ detail: String) -> "@
        + fault
        + " {\n"@
        + "  "@
        + fault
        + "(detail: detail, field: nil, kind: .failedValidation, operation: operation)\n"@
        + "}"@
}

pub fn failed_validation_helper_layout(named: &str, prefix: &str, fault: &str) -> (r: String)
    ensures
        r@ == failed_validation_helper_text(named@, prefix@, fault@),
{
    let mut r = String::from_str("/// The fault a `");
    r.append(named);
    r.append("` `ws_rpc` call answers with when a reply will not become the operation's\n");
    r.append("/// own declared success or error, or when a payload will not become the wire shape going out.\n");
    r.append("func ");
    r.append(prefix);
    r.append("WsFailedValidation(_ operation: String, _ detail: String) -> ");
    r.append(fault);
    r.append(" {\n");
    r.append("  ");
    r.append(fault);
    r.append("(detail: detail, field: nil, kind: .failedValidation, operation: operation)\n");
    r.append("}");
    r
}

/// The transport actor, assembled from its parts and its methods.
pub open spec fn actor_layout_text(header: Seq<char>, init: Seq<char>, close: Seq<char>, correlate: Seq<char>, notify: Seq<char>, handle_message: Seq<char>, heartbeat: Seq<char>, handle_close: Seq<char>, methods: Seq<char>) -> Seq<char> {
    header
        + init
        + close
        + correlate
        + notify
        + handle_message
        + heartbeat
        + handle_close
        + "\n"@
        + "\n"@
        + methods
        + "\n"@
        + "}"@
}

pub fn actor_layout(header: &str, init: &str, close: &str, correlate: &str, notify: &str, handle_message: &str, heartbeat: &str, handle_close: &str, methods: &str) -> (r: String)
    ensures
        r@ == actor_layout_text(header@, init@, close@, correlate@, notify@, handle_message@, heartbeat@, handle_close@, methods@),
{
    let mut r = String::from_str(header);
    r.append(init);
    r.append(close);
    r.append(correlate);
    r.append(notify);
    r.append(handle_message);
    r.append(heartbeat);
    r.append(handle_close);
    r.append("\n");
    r.append("\n");
    r.append(methods);
    r.append("\n");
    r.append("}");
    r
}

/// The actor's doc and its stored properties.
pub open spec fn actor_header_text(named: Seq<char>) -> Seq<char> {
    "/// A `"@
        + named
        + "` transport over one `ws_rpc` socket, correlating requests to their replies,\n"@
        + "/// probing liveness on its own heartbeat, and settling every call still waiting with a\n"@
        + "/// `transport-failure` fault once the socket closes. One method per operation, with the\n"@
        + "/// REST client's own signatures.\n"@
        + "public actor "@
        + named
        + "WsTransport {\n"@
        + "  private let socket: any "@
        + named
        + "WsSocket\n"@
        + "  private let heartbeat: "@
        + named
        + "WsOptions.Heartbeat?\n"@
        + "  private var next = 0\n"@
        + "  private var pending: [String: CheckedContinuation<Data?, Never>] = [:]\n"@
        + "  private var pingTask: Task<Void, Never>?\n"@
        + "  private var pongDeadlineTask: Task<Void, Never>?\n"@
        + "  private var inboundContinuation: AsyncStream<String>.Continuation?\n"@
        + "  private var closed = false\n"@
        + "\n"@
}

pub fn actor_header(named: &str) -> (r: String)
    ensures
        r@ == actor_header_text(named@),
{
    let mut r = String::from_str("/// A `");
    r.append(named);
    r.append("` transport over one `ws_rpc` socket, correlating requests to their replies,\n");
    r.append("/// probing liveness on its own heartbeat, and settling every call still waiting with a\n");
    r.append("/// `transport-failure` fault once the socket closes. One method per operation, with the\n");
    r.append("/// REST client's own signatures.\n");
    r.append("public actor ");
    r.append(named);
    r.append("WsTransport {\n");
    r.append("  private let socket: any ");
    r.append(named);
    r.append("WsSocket\n");
    r.append("  private let heartbeat: ");
    r.append(named);
    r.append("WsOptions.Heartbeat?\n");
    r.append("  private var next = 0\n");
    r.append("  private var pending: [String: CheckedContinuation<Data?, Never>] = [:]\n");
    r.append("  private var pingTask: Task<Void, Never>?\n");
    r.append("  private var pongDeadlineTask: Task<Void, Never>?\n");
    r.append("  private var inboundContinuation: AsyncStream<String>.Continuation?\n");
    r.append("  private var closed = false\n");
    r.append("\n");
    r
}

/// `init`: wires the socket to one ordered `AsyncStream` and starts the heartbeat.
pub open spec fn actor_init_text(named: Seq<char>) -> Seq<char> {
    "  public init(socket: any "@
        + named
        + "WsSocket, options: "@
        + named
        + "WsOptions = .init()) {\n"@
        + "    self.socket = socket\n"@
        + "    self.heartbeat = options.heartbeat\n"@
        + "    let (inbound, outbound) = AsyncStream<String>.makeStream()\n"@
        + "    self.inboundContinuation = outbound\n"@
        + "    socket.onMessage = { text in outbound.yield(text) }\n"@
        + "    socket.onClose = { outbound.finish() }\n"@
        + "    Task { [weak self] in\n"@
        + "      for await text in inbound {\n"@
        + "        await self?.handleMessage(text)\n"@
        + "      }\n"@
        + "      await self?.handleClose()\n"@
        + "    }\n"@
        + "    Task { [weak self] in await self?.schedulePing() }\n"@
        + "  }\n"@
        + "\n"@
}

pub fn actor_init(named: &str) -> (r: String)
    ensures
        r@ == actor_init_text(named@),
{
    let mut r = String::from_str("  public init(socket: any ");
    r.append(named);
    r.append("WsSocket, options: ");
    r.append(named);
    r.append("WsOptions = .init()) {\n");
    r.append("    self.socket = socket\n");
    r.append("    self.heartbeat = options.heartbeat\n");
    r.append("    let (inbound, outbound) = AsyncStream<String>.makeStream()\n");
    r.append("    self.inboundContinuation = outbound\n");
    r.append("    socket.onMessage = { text in outbound.yield(text) }\n");
    r.append("    socket.onClose = { outbound.finish() }\n");
    r.append("    Task { [weak self] in\n");
    r.append("      for await text in inbound {\n");
    r.append("        await self?.handleMessage(text)\n");
    r.append("      }\n");
    r.append("      await self?.handleClose()\n");
    r.append("    }\n");
    r.append("    Task { [weak self] in await self?.schedulePing() }\n");
    r.append("  }\n");
    r.append("\n");
    r
}

/// `close`: closes the socket and settles every waiting call.
pub open spec fn actor_close_text() -> Seq<char> {
    "  public func close() {\n"@
        + "    socket.close()\n"@
        + "    handleClose()\n"@
        + "  }\n"@
        + "\n"@
}

pub fn actor_close_method() -> (r: String)
    ensures
        r@ == actor_close_text(),
{
    let mut r = String::from_str("  public func close() {\n");
    r.append("    socket.close()\n");
    r.append("    handleClose()\n");
    r.append("  }\n");
    r.append("\n");
    r
}

/// `correlate`: registers the waiting continuation and writes the `request` frame together.
pub open spec fn actor_correlate_text(named: Seq<char>) -> Seq<char> {
    "  private func correlate<Payload: Encodable>(\n"@
        + "    operation: String,\n"@
        + "    payload: Payload,\n"@
        + "  ) async throws -> Data? {\n"@
        + "    let id = String(next)\n"@
        + "    next += 1\n"@
        + "    let frame = "@
        + named
        + "WsRequestFrame(id: id, service: \""@
        + named
        + "\", operation: operation, payload: payload)\n"@
        + "    let data = try JSONEncoder().encode(frame)\n"@
        + "    if closed {\n"@
        + "      return nil\n"@
        + "    }\n"@
        + "    let text = String(decoding: data, as: UTF8.self)\n"@
        + "    return await withCheckedContinuation { (continuation: CheckedContinuation<Data?, Never>) in\n"@
        + "      pending[id] = continuation\n"@
        + "      socket.send(text)\n"@
        + "    }\n"@
        + "  }\n"@
        + "\n"@
}

pub fn actor_correlate(named: &str) -> (r: String)
    ensures
        r@ == actor_correlate_text(named@),
{
    let mut r = String::from_str("  private func correlate<Payload: Encodable>(\n");
    r.append("    operation: String,\n");
    r.append("    payload: Payload,\n");
    r.append("  ) async throws -> Data? {\n");
    r.append("    let id = String(next)\n");
    r.append("    next += 1\n");
    r.append("    let frame = ");
    r.append(named);
    r.append("WsRequestFrame(id: id, service: \"");
    r.append(named);
    r.append("\", operation: operation, payload: payload)\n");
    r.append("    let data = try JSONEncoder().encode(frame)\n");
    r.append("    if closed {\n");
    r.append("      return nil\n");
    r.append("    }\n");
    r.append("    let text = String(decoding: data, as: UTF8.self)\n");
    r.append("    return await withCheckedContinuation { (continuation: CheckedContinuation<Data?, Never>) in\n");
    r.append("      pending[id] = continuation\n");
    r.append("      socket.send(text)\n");
    r.append("    }\n");
    r.append("  }\n");
    r.append("\n");
    r
}

/// `sendNotify`: writes a `notify` frame.
pub open spec fn actor_send_notify_text(named: Seq<char>) -> Seq<char> {
    "  private func sendNotify<Payload: Encodable>(operation: String, payload: Payload) throws {\n"@
        + "    let frame = "@
        + named
        + "WsNotifyFrame(service: \""@
        + named
        + "\", operation: operation, payload: payload)\n"@
        + "    let data = try JSONEncoder().encode(frame)\n"@
        + "    let text = String(decoding: data, as: UTF8.self)\n"@
        + "    socket.send(text)\n"@
        + "  }\n"@
        + "\n"@
}

pub fn actor_send_notify(named: &str) -> (r: String)
    ensures
        r@ == actor_send_notify_text(named@),
{
    let mut r = String::from_str("  private func sendNotify<Payload: Encodable>(operation: String, payload: Payload) throws {\n");
    r.append("    let frame = ");
    r.append(named);
    r.append("WsNotifyFrame(service: \"");
    r.append(named);
    r.append("\", operation: operation, payload: payload)\n");
    r.append("    let data = try JSONEncoder().encode(frame)\n");
    r.append("    let text = String(decoding: data, as: UTF8.self)\n");
    r.append("    socket.send(text)\n");
    r.append("  }\n");
    r.append("\n");
    r
}

/// `handleMessage`: a ping draws a pong, a pong re-arms the probe, a reply resumes its call.
pub open spec fn actor_handle_message_text(named: Seq<char>) -> Seq<char> {
    "  private func handleMessage(_ text: String) async {\n"@
        + "    guard let data = text.data(using: .utf8) else { return }\n"@
        + "    guard let probe = try? JSONDecoder().decode("@
        + named
        + "WsFrameProbe.self, from: data) else { return }\n"@
        + "    switch probe.kind {\n"@
        + "    case \"ping\":\n"@
        + "      socket.send(\"{\\\"kind\\\":\\\"pong\\\"}\")\n"@
        + "    case \"pong\":\n"@
        + "      pongDeadlineTask?.cancel()\n"@
        + "      pongDeadlineTask = nil\n"@
        + "      schedulePing()\n"@
        + "    case \"reply\":\n"@
        + "      guard probe.service == \""@
        + named
        + "\", let id = probe.id, let waiting = pending.removeValue(forKey: id) else { return }\n"@
        + "      waiting.resume(returning: data)\n"@
        + "    default:\n"@
        + "      return\n"@
        + "    }\n"@
        + "  }\n"@
        + "\n"@
}

pub fn actor_handle_message(named: &str) -> (r: String)
    ensures
        r@ == actor_handle_message_text(named@),
{
    let mut r = String::from_str("  private func handleMessage(_ text: String) async {\n");
    r.append("    guard let data = text.data(using: .utf8) else { return }\n");
    r.append("    guard let probe = try? JSONDecoder().decode(");
    r.append(named);
    r.append("WsFrameProbe.self, from: data) else { return }\n");
    r.append("    switch probe.kind {\n");
    r.append("    case \"ping\":\n");
    r.append("      socket.send(\"{\\\"kind\\\":\\\"pong\\\"}\")\n");
    r.append("    case \"pong\":\n");
    r.append("      pongDeadlineTask?.cancel()\n");
    r.append("      pongDeadlineTask = nil\n");
    r.append("      schedulePing()\n");
    r.append("    case \"reply\":\n");
    r.append("      guard probe.service == \"");
    r.append(named);
    r.append("\", let id = probe.id, let waiting = pending.removeValue(forKey: id) else { return }\n");
    r.append("      waiting.resume(returning: data)\n");
    r.append("    default:\n");
    r.append("      return\n");
    r.append("    }\n");
    r.append("  }\n");
    r.append("\n");
    r
}

/// The heartbeat: the probe, its deadline, and the close a missed pong causes.
pub open spec fn actor_heartbeat_text() -> Seq<char> {
    "  private func schedulePing() {\n"@
        + "    guard let heartbeat else { return }\n"@
        + "    pingTask?.cancel()\n"@
        + "    let intervalNanoseconds = UInt64(heartbeat.intervalMs) * 1_000_000\n"@
        + "    pingTask = Task { [weak self] in\n"@
        + "      try? await Task.sleep(nanoseconds: intervalNanoseconds)\n"@
        + "      guard !Task.isCancelled else { return }\n"@
        + "      await self?.sendPing()\n"@
        + "    }\n"@
        + "  }\n"@
        + "\n"@
        + "  private func sendPing() {\n"@
        + "    guard !closed, let heartbeat else { return }\n"@
        + "    socket.send(\"{\\\"kind\\\":\\\"ping\\\"}\")\n"@
        + "    pongDeadlineTask?.cancel()\n"@
        + "    let timeoutNanoseconds = UInt64(heartbeat.timeoutMs) * 1_000_000\n"@
        + "    pongDeadlineTask = Task { [weak self] in\n"@
        + "      try? await Task.sleep(nanoseconds: timeoutNanoseconds)\n"@
        + "      guard !Task.isCancelled else { return }\n"@
        + "      await self?.pongMissed()\n"@
        + "    }\n"@
        + "  }\n"@
        + "\n"@
        + "  private func pongMissed() {\n"@
        + "    guard !closed else { return }\n"@
        + "    socket.close()\n"@
        + "    handleClose()\n"@
        + "  }\n"@
        + "\n"@
}

pub fn actor_heartbeat_machinery() -> (r: String)
    ensures
        r@ == actor_heartbeat_text(),
{
    let mut r = String::from_str("  private func schedulePing() {\n");
    r.append("    guard let heartbeat else { return }\n");
    r.append("    pingTask?.cancel()\n");
    r.append("    let intervalNanoseconds = UInt64(heartbeat.intervalMs) * 1_000_000\n");
    r.append("    pingTask = Task { [weak self] in\n");
    r.append("      try? await Task.sleep(nanoseconds: intervalNanoseconds)\n");
    r.append("      guard !Task.isCancelled else { return }\n");
    r.append("      await self?.sendPing()\n");
    r.append("    }\n");
    r.append("  }\n");
    r.append("\n");
    r.append("  private func sendPing() {\n");
    r.append("    guard !closed, let heartbeat else { return }\n");
    r.append("    socket.send(\"{\\\"kind\\\":\\\"ping\\\"}\")\n");
    r.append("    pongDeadlineTask?.cancel()\n");
    r.append("    let timeoutNanoseconds = UInt64(heartbeat.timeoutMs) * 1_000_000\n");
    r.append("    pongDeadlineTask = Task { [weak self] in\n");
    r.append("      try? await Task.sleep(nanoseconds: timeoutNanoseconds)\n");
    r.append("      guard !Task.isCancelled else { return }\n");
    r.append("      await self?.pongMissed()\n");
    r.append("    }\n");
    r.append("  }\n");
    r.append("\n");
    r.append("  private func pongMissed() {\n");
    r.append("    guard !closed else { return }\n");
    r.append("    socket.close()\n");
    r.append("    handleClose()\n");
    r.append("  }\n");
    r.append("\n");
    r
}

/// `handleClose`: tears the transport down once and settles every waiting call with `nil`.
pub open spec fn actor_handle_close_text() -> Seq<char> {
    "  private func handleClose() {\n"@
        + "    guard !closed else { return }\n"@
        + "    closed = true\n"@
        + "    pingTask?.cancel()\n"@
        + "    pongDeadlineTask?.cancel()\n"@
        + "    inboundContinuation?.finish()\n"@
        + "    pingTask = nil\n"@
        + "    pongDeadlineTask = nil\n"@
        + "    let waiting = pending\n"@
        + "    pending.removeAll()\n"@
        + "    for continuation in waiting.values {\n"@
        + "      continuation.resume(returning: nil)\n"@
        + "    }\n"@
        + "  }"@
}

pub fn actor_handle_close() -> (r: String)
    ensures
        r@ == actor_handle_close_text(),
{
    let mut r = String::from_str("  private func handleClose() {\n");
    r.append("    guard !closed else { return }\n");
    r.append("    closed = true\n");
    r.append("    pingTask?.cancel()\n");
    r.append("    pongDeadlineTask?.cancel()\n");
    r.append("    inboundContinuation?.finish()\n");
    r.append("    pingTask = nil\n");
    r.append("    pongDeadlineTask = nil\n");
    r.append("    let waiting = pending\n");
    r.append("    pending.removeAll()\n");
    r.append("    for continuation in waiting.values {\n");
    r.append("      continuation.resume(returning: nil)\n");
    r.append("    }\n");
    r.append("  }");
    r
}

/// A one-way method: writes a `notify` frame and throws the shared refusal when it cannot.
pub open spec fn one_way_method_text(wire: Seq<char>, call: Seq<char>, param_ty: Seq<char>, refusal: Seq<char>, prefix: Seq<char>) -> Seq<char> {
    "  /// Calls `"@
        + wire
        + "` over `ws_rpc`.\n"@
        + "  public func "@
        + call
        + "(_ req: "@
        + param_ty
        + ") async throws {\n"@
        + "    do {\n"@
        + "      try sendNotify(operation: \""@
        + wire
        + "\", payload: req)\n"@
        + "    } catch {\n"@
        + "      throw "@
        + refusal
        + "(fault: "@
        + prefix
        + "WsFailedValidation(\""@
        + wire
        + "\", \"\\(error)\"))\n"@
        + "    }\n"@
        + "  }"@
}

pub fn one_way_method_layout(wire: &str, call: &str, param_ty: &str, refusal: &str, prefix: &str) -> (r: String)
    ensures
        r@ == one_way_method_text(wire@, call@, param_ty@, refusal@, prefix@),
{
    let mut r = String::from_str("  /// Calls `");
    r.append(wire);
    r.append("` over `ws_rpc`.\n");
    r.append("  public func ");
    r.append(call);
    r.append("(_ req: ");
    r.append(param_ty);
    r.append(") async throws {\n");
    r.append("    do {\n");
    r.append("      try sendNotify(operation: \"");
    r.append(wire);
    r.append("\", payload: req)\n");
    r.append("    } catch {\n");
    r.append("      throw ");
    r.append(refusal);
    r.append("(fault: ");
    r.append(prefix);
    r.append("WsFailedValidation(\"");
    r.append(wire);
    r.append("\", \"\\(error)\"))\n");
    r.append("    }\n");
    r.append("  }");
    r
}

/// A valued success, decoded through its envelope.
pub open spec fn value_success_text(named: Seq<char>, success_ty: Seq<char>, prefix: Seq<char>, wire: Seq<char>) -> Seq<char> {
    "        do {\n"@
        + "          let decoded = try JSONDecoder().decode("@
        + named
        + "WsValueEnvelope<"@
        + success_ty
        + ">.self, from: raw)\n"@
        + "          return .success(decoded.value)\n"@
        + "        } catch {\n"@
        + "          return .failure(.fault("@
        + prefix
        + "WsFailedValidation(\""@
        + wire
        + "\", \"\\(error)\")))\n"@
        + "        }\n"@
}

pub fn value_success_block(named: &str, success_ty: &str, prefix: &str, wire: &str) -> (r: String)
    ensures
        r@ == value_success_text(named@, success_ty@, prefix@, wire@),
{
    let mut r = String::from_str("        do {\n");
    r.append("          let decoded = try JSONDecoder().decode(");
    r.append(named);
    r.append("WsValueEnvelope<");
    r.append(success_ty);
    r.append(">.self, from: raw)\n");
    r.append("          return .success(decoded.value)\n");
    r.append("        } catch {\n");
    r.append("          return .failure(.fault(");
    r.append(prefix);
    r.append("WsFailedValidation(\"");
    r.append(wire);
    r.append("\", \"\\(error)\")))\n");
    r.append("        }\n");
    r
}

/// A reply method: correlates the `request` frame and reads the reply into a `Result`.
pub open spec fn reply_method_text(wire: Seq<char>, call: Seq<char>, param_ty: Seq<char>, success_ty: Seq<char>, failure: Seq<char>, prefix: Seq<char>, named: Seq<char>, success_block: Seq<char>, error_ty: Seq<char>) -> Seq<char> {
    "  /// Calls `"@
        + wire
        + "` over `ws_rpc`.\n"@
        + "  public func "@
        + call
        + "(_ req: "@
        + param_ty
        + ") async -> Result<"@
        + success_ty
        + ", "@
        + failure
        + "> {\n"@
        + "    let raw: Data?\n"@
        + "    do {\n"@
        + "      raw = try await correlate(operation: \""@
        + wire
        + "\", payload: req)\n"@
        + "    } catch {\n"@
        + "      return .failure(.fault("@
        + prefix
        + "WsFailedValidation(\""@
        + wire
        + "\", \"\\(error)\")))\n"@
        + "    }\n"@
        + "    guard let raw else {\n"@
        + "      return .failure(.fault("@
        + prefix
        + "WsTransportFailure(\""@
        + wire
        + "\", \"the socket closed before the reply arrived\")))\n"@
        + "    }\n"@
        + "    let ok: Bool\n"@
        + "    do {\n"@
        + "      ok = try JSONDecoder().decode("@
        + named
        + "WsOkProbe.self, from: raw).ok\n"@
        + "    } catch {\n"@
        + "      return .failure(.fault("@
        + prefix
        + "WsFailedValidation(\""@
        + wire
        + "\", \"\\(error)\")))\n"@
        + "    }\n"@
        + "    if ok {\n"@
        + success_block
        + "    }\n"@
        + "    if let probed = try? JSONDecoder().decode("@
        + named
        + "WsFaultEnvelope.self, from: raw),\n"@
        + "       probed.error.isServiceFault == true,\n"@
        + "       let fault = probed.error.fault {\n"@
        + "      return .failure(.fault(fault))\n"@
        + "    }\n"@
        + "    do {\n"@
        + "      let declared = try JSONDecoder().decode("@
        + named
        + "WsDeclaredEnvelope<"@
        + error_ty
        + ">.self, from: raw)\n"@
        + "      return .failure(.declared(declared.error))\n"@
        + "    } catch {\n"@
        + "      return .failure(.fault("@
        + prefix
        + "WsFailedValidation(\""@
        + wire
        + "\", \"\\(error)\")))\n"@
        + "    }\n"@
        + "  }"@
}

pub fn reply_method_layout(wire: &str, call: &str, param_ty: &str, success_ty: &str, failure: &str, prefix: &str, named: &str, success_block: &str, error_ty: &str) -> (r: String)
    ensures
        r@ == reply_method_text(wire@, call@, param_ty@, success_ty@, failure@, prefix@, named@, success_block@, error_ty@),
{
    let mut r = String::from_str("  /// Calls `");
    r.append(wire);
    r.append("` over `ws_rpc`.\n");
    r.append("  public func ");
    r.append(call);
    r.append("(_ req: ");
    r.append(param_ty);
    r.append(") async -> Result<");
    r.append(success_ty);
    r.append(", ");
    r.append(failure);
    r.append("> {\n");
    r.append("    let raw: Data?\n");
    r.append("    do {\n");
    r.append("      raw = try await correlate(operation: \"");
    r.append(wire);
    r.append("\", payload: req)\n");
    r.append("    } catch {\n");
    r.append("      return .failure(.fault(");
    r.append(prefix);
    r.append("WsFailedValidation(\"");
    r.append(wire);
    r.append("\", \"\\(error)\")))\n");
    r.append("    }\n");
    r.append("    guard let raw else {\n");
    r.append("      return .failure(.fault(");
    r.append(prefix);
    r.append("WsTransportFailure(\"");
    r.append(wire);
    r.append("\", \"the socket closed before the reply arrived\")))\n");
    r.append("    }\n");
    r.append("    let ok: Bool\n");
    r.append("    do {\n");
    r.append("      ok = try JSONDecoder().decode(");
    r.append(named);
    r.append("WsOkProbe.self, from: raw).ok\n");
    r.append("    } catch {\n");
    r.append("      return .failure(.fault(");
    r.append(prefix);
    r.append("WsFailedValidation(\"");
    r.append(wire);
    r.append("\", \"\\(error)\")))\n");
    r.append("    }\n");
    r.append("    if ok {\n");
    r.append(success_block);
    r.append("    }\n");
    r.append("    if let probed = try? JSONDecoder().decode(");
    r.append(named);
    r.append("WsFaultEnvelope.self, from: raw),\n");
    r.append("       probed.error.isServiceFault == true,\n");
    r.append("       let fault = probed.error.fault {\n");
    r.append("      return .failure(.fault(fault))\n");
    r.append("    }\n");
    r.append("    do {\n");
    r.append("      let declared = try JSONDecoder().decode(");
    r.append(named);
    r.append("WsDeclaredEnvelope<");
    r.append(error_ty);
    r.append(">.self, from: raw)\n");
    r.append("      return .failure(.declared(declared.error))\n");
    r.append("    } catch {\n");
    r.append("      return .failure(.fault(");
    r.append(prefix);
    r.append("WsFailedValidation(\"");
    r.append(wire);
    r.append("\", \"\\(error)\")))\n");
    r.append("    }\n");
    r.append("  }");
    r
}

/// `{Named}WsClient`: the same actor under the name a caller constructs.
pub open spec fn client_alias_text(named: Seq<char>) -> Seq<char> {
    "/// A `"@
        + named
        + "` caller over `ws_rpc` — the same actor `"@
        + named
        + "WsTransport` is, under the\n"@
        + "/// name a caller constructs, mirroring `"@
        + named
        + "HttpClient`'s own method signatures.\n"@
        + "public typealias "@
        + named
        + "WsClient = "@
        + named
        + "WsTransport"@
}

pub fn client_alias(named: &str) -> (r: String)
    ensures
        r@ == client_alias_text(named@),
{
    let mut r = String::from_str("/// A `");
    r.append(named);
    r.append("` caller over `ws_rpc` — the same actor `");
    r.append(named);
    r.append("WsTransport` is, under the\n");
    r.append("/// name a caller constructs, mirroring `");
    r.append(named);
    r.append("HttpClient`'s own method signatures.\n");
    r.append("public typealias ");
    r.append(named);
    r.append("WsClient = ");
    r.append(named);
    r.append("WsTransport");
    r
}

} // verus!
