//! The fixed TypeScript text of the connection-accepting `ws_rpc` server, with a hole for each
//! name and piece it fills in.

use vstd::prelude::*;

verus! {

/// The seam `accept` takes: the client seam plus the `error` listener a server must attach.
pub open spec fn server_socket_type_text(named: Seq<char>) -> Seq<char> {
    "/** The seam a server accepts: the client seam plus an `error` listener, which both a platform WebSocket and the `ws` package expose. */\n"@
        + "export type "@
        + named
        + "WsServerSocket = "@
        + named
        + "WsSocket & {\n"@
        + "  addEventListener(type: \"error\", listener: (event: { error?: unknown }) => void): void;\n"@
        + "  removeEventListener(type: \"error\", listener: (event: { error?: unknown }) => void): void;\n"@
        + "};"@
}

pub fn server_socket_type(named: &str) -> (r: String)
    ensures
        r@ == server_socket_type_text(named@),
{
    let mut r = String::from_str("/** The seam a server accepts: the client seam plus an `error` listener, which both a platform WebSocket and the `ws` package expose. */\n");
    r.append("export type ");
    r.append(named);
    r.append("WsServerSocket = ");
    r.append(named);
    r.append("WsSocket & {\n");
    r.append("  addEventListener(type: \"error\", listener: (event: { error?: unknown }) => void): void;\n");
    r.append("  removeEventListener(type: \"error\", listener: (event: { error?: unknown }) => void): void;\n");
    r.append("};");
    r
}

/// One accepted connection: the socket, its abort signal, `close`, and `share`.
pub open spec fn connection_type_text(named: Seq<char>) -> Seq<char> {
    "/** One accepted connection: the socket, a signal aborted when it closes, a way to close it, and a way to hand the same socket to another service. */\n"@
        + "export type "@
        + named
        + "WsConnection = {\n"@
        + "  socket: "@
        + named
        + "WsSocket;\n"@
        + "  signal: AbortSignal;\n"@
        + "  close(): void;\n"@
        + "  /** Hands the guarded socket and this connection's abort signal to another service's attachment. The detach it returns also runs when this connection closes. Throws once the connection is closed. */\n"@
        + "  share(attach: (socket: "@
        + named
        + "WsSocket, signal: AbortSignal) => () => void): () => void;\n"@
        + "};"@
}

pub fn connection_type(named: &str) -> (r: String)
    ensures
        r@ == connection_type_text(named@),
{
    let mut r = String::from_str("/** One accepted connection: the socket, a signal aborted when it closes, a way to close it, and a way to hand the same socket to another service. */\n");
    r.append("export type ");
    r.append(named);
    r.append("WsConnection = {\n");
    r.append("  socket: ");
    r.append(named);
    r.append("WsSocket;\n");
    r.append("  signal: AbortSignal;\n");
    r.append("  close(): void;\n");
    r.append("  /** Hands the guarded socket and this connection's abort signal to another service's attachment. The detach it returns also runs when this connection closes. Throws once the connection is closed. */\n");
    r.append("  share(attach: (socket: ");
    r.append(named);
    r.append("WsSocket, signal: AbortSignal) => () => void): () => void;\n");
    r.append("};");
    r
}

/// The server options: the heartbeat (or `false`), `onFault`, and `onSocketError`.
pub open spec fn server_options_type_text(named: Seq<char>) -> Seq<char> {
    "export type "@
        + named
        + "WsServerOptions = {\n"@
        + "  /** Arms only after `intervalMs` with no inbound frame of any kind; closes after `timeoutMs` without a pong. `false` turns it off. */\n"@
        + "  heartbeat?: { intervalMs: number; timeoutMs: number } | false;\n"@
        + "  onFault: (fault: "@
        + named
        + "Fault, connection: "@
        + named
        + "WsConnection) => void;\n"@
        + "  /** A socket error: the connection is closed first; without this, the error is dropped after the close. */\n"@
        + "  onSocketError?: (error: unknown, connection: "@
        + named
        + "WsConnection) => void;\n"@
        + "};"@
}

pub fn server_options_type(named: &str) -> (r: String)
    ensures
        r@ == server_options_type_text(named@),
{
    let mut r = String::from_str("export type ");
    r.append(named);
    r.append("WsServerOptions = {\n");
    r.append("  /** Arms only after `intervalMs` with no inbound frame of any kind; closes after `timeoutMs` without a pong. `false` turns it off. */\n");
    r.append("  heartbeat?: { intervalMs: number; timeoutMs: number } | false;\n");
    r.append("  onFault: (fault: ");
    r.append(named);
    r.append("Fault, connection: ");
    r.append(named);
    r.append("WsConnection) => void;\n");
    r.append("  /** A socket error: the connection is closed first; without this, the error is dropped after the close. */\n");
    r.append("  onSocketError?: (error: unknown, connection: ");
    r.append(named);
    r.append("WsConnection) => void;\n");
    r.append("};");
    r
}

/// The factory, assembled from its header, `accept`, and the returned handle.
pub open spec fn create_server_text(header: Seq<char>, accept: Seq<char>, returned: Seq<char>) -> Seq<char> {
    header
        + accept
        + returned
        + "}"@
}

pub fn create_server_layout(header: &str, accept: &str, returned: &str) -> (r: String)
    ensures
        r@ == create_server_text(header@, accept@, returned@),
{
    let mut r = String::from_str(header);
    r.append(accept);
    r.append(returned);
    r.append("}");
    r
}

/// The factory's signature, return type, heartbeat default and connection set.
pub open spec fn server_header_text(named: Seq<char>) -> Seq<char> {
    "export function create"@
        + named
        + "WsServer<Ctx>(\n"@
        + "  impl: "@
        + named
        + "Impl<Ctx>,\n"@
        + "  contextFor: (connection: "@
        + named
        + "WsConnection) => Ctx,\n"@
        + "  options: "@
        + named
        + "WsServerOptions,\n"@
        + "): {\n"@
        + "  accept(socket: "@
        + named
        + "WsServerSocket): "@
        + named
        + "WsConnection;\n"@
        + "  connections(): ReadonlyArray<"@
        + named
        + "WsConnection>;\n"@
        + "  closeAll(): void;\n"@
        + "} {\n"@
        + "  const heartbeat = options.heartbeat === undefined ? { intervalMs: 30_000, timeoutMs: 10_000 } : options.heartbeat;\n"@
        + "  const connections = new Set<"@
        + named
        + "WsConnection>();\n"@
        + "  return {\n"@
}

pub fn server_header_stmt(named: &str) -> (r: String)
    ensures
        r@ == server_header_text(named@),
{
    let mut r = String::from_str("export function create");
    r.append(named);
    r.append("WsServer<Ctx>(\n");
    r.append("  impl: ");
    r.append(named);
    r.append("Impl<Ctx>,\n");
    r.append("  contextFor: (connection: ");
    r.append(named);
    r.append("WsConnection) => Ctx,\n");
    r.append("  options: ");
    r.append(named);
    r.append("WsServerOptions,\n");
    r.append("): {\n");
    r.append("  accept(socket: ");
    r.append(named);
    r.append("WsServerSocket): ");
    r.append(named);
    r.append("WsConnection;\n");
    r.append("  connections(): ReadonlyArray<");
    r.append(named);
    r.append("WsConnection>;\n");
    r.append("  closeAll(): void;\n");
    r.append("} {\n");
    r.append("  const heartbeat = options.heartbeat === undefined ? { intervalMs: 30_000, timeoutMs: 10_000 } : options.heartbeat;\n");
    r.append("  const connections = new Set<");
    r.append(named);
    r.append("WsConnection>();\n");
    r.append("  return {\n");
    r
}

/// `accept`, assembled from its statements.
pub open spec fn accept_text(opening: Seq<char>, heartbeat: Seq<char>, guarded: Seq<char>, connection: Seq<char>, on_frame: Seq<char>, on_error: Seq<char>, on_close: Seq<char>, wiring: Seq<char>) -> Seq<char> {
    opening
        + heartbeat
        + guarded
        + connection
        + on_frame
        + on_error
        + on_close
        + wiring
}

pub fn accept_layout(opening: &str, heartbeat: &str, guarded: &str, connection: &str, on_frame: &str, on_error: &str, on_close: &str, wiring: &str) -> (r: String)
    ensures
        r@ == accept_text(opening@, heartbeat@, guarded@, connection@, on_frame@, on_error@, on_close@, wiring@),
{
    let mut r = String::from_str(opening);
    r.append(heartbeat);
    r.append(guarded);
    r.append(connection);
    r.append(on_frame);
    r.append(on_error);
    r.append(on_close);
    r.append(wiring);
    r
}

/// `accept`'s opening: the abort controller and the two timers.
pub open spec fn accept_opening_text() -> Seq<char> {
    "    accept(socket) {\n"@
        + "      const controller = new AbortController();\n"@
        + "      let idle: ReturnType<typeof setTimeout> | undefined;\n"@
        + "      let pongDeadline: ReturnType<typeof setTimeout> | undefined;\n"@
}

pub fn accept_opening_stmt() -> (r: String)
    ensures
        r@ == accept_opening_text(),
{
    let mut r = String::from_str("    accept(socket) {\n");
    r.append("      const controller = new AbortController();\n");
    r.append("      let idle: ReturnType<typeof setTimeout> | undefined;\n");
    r.append("      let pongDeadline: ReturnType<typeof setTimeout> | undefined;\n");
    r
}

/// The idle-armed heartbeat of one connection.
pub open spec fn accept_heartbeat_text() -> Seq<char> {
    "      const stopHeartbeat = () => {\n"@
        + "        if (idle !== undefined) clearTimeout(idle);\n"@
        + "        if (pongDeadline !== undefined) clearTimeout(pongDeadline);\n"@
        + "        idle = pongDeadline = undefined;\n"@
        + "      };\n"@
        + "      const armIdle = () => {\n"@
        + "        if (heartbeat === false) return;\n"@
        + "        if (idle !== undefined) clearTimeout(idle);\n"@
        + "        idle = setTimeout(() => {\n"@
        + "          socket.send(JSON.stringify({ kind: \"ping\" }));\n"@
        + "          pongDeadline = setTimeout(() => socket.close(), heartbeat.timeoutMs);\n"@
        + "        }, heartbeat.intervalMs);\n"@
        + "      };\n"@
}

pub fn accept_heartbeat_stmt() -> (r: String)
    ensures
        r@ == accept_heartbeat_text(),
{
    let mut r = String::from_str("      const stopHeartbeat = () => {\n");
    r.append("        if (idle !== undefined) clearTimeout(idle);\n");
    r.append("        if (pongDeadline !== undefined) clearTimeout(pongDeadline);\n");
    r.append("        idle = pongDeadline = undefined;\n");
    r.append("      };\n");
    r.append("      const armIdle = () => {\n");
    r.append("        if (heartbeat === false) return;\n");
    r.append("        if (idle !== undefined) clearTimeout(idle);\n");
    r.append("        idle = setTimeout(() => {\n");
    r.append("          socket.send(JSON.stringify({ kind: \"ping\" }));\n");
    r.append("          pongDeadline = setTimeout(() => socket.close(), heartbeat.timeoutMs);\n");
    r.append("        }, heartbeat.intervalMs);\n");
    r.append("      };\n");
    r
}

/// The socket the attachment writes through: a write after close is dropped.
pub open spec fn guarded_socket_text(named: Seq<char>) -> Seq<char> {
    "      // The socket the attachment writes through: a write after close is dropped rather than handed to the library.\n"@
        + "      const guarded: "@
        + named
        + "WsSocket = {\n"@
        + "        send: (text) => { if (!controller.signal.aborted) socket.send(text); },\n"@
        + "        close: () => socket.close(),\n"@
        + "        addEventListener: (type: \"message\" | \"close\", listener: never) => socket.addEventListener(type as \"message\", listener),\n"@
        + "        removeEventListener: (type: \"message\" | \"close\", listener: never) => socket.removeEventListener(type as \"message\", listener),\n"@
        + "      } as "@
        + named
        + "WsSocket;\n"@
}

pub fn guarded_socket_stmt(named: &str) -> (r: String)
    ensures
        r@ == guarded_socket_text(named@),
{
    let mut r = String::from_str("      // The socket the attachment writes through: a write after close is dropped rather than handed to the library.\n");
    r.append("      const guarded: ");
    r.append(named);
    r.append("WsSocket = {\n");
    r.append("        send: (text) => { if (!controller.signal.aborted) socket.send(text); },\n");
    r.append("        close: () => socket.close(),\n");
    r.append("        addEventListener: (type: \"message\" | \"close\", listener: never) => socket.addEventListener(type as \"message\", listener),\n");
    r.append("        removeEventListener: (type: \"message\" | \"close\", listener: never) => socket.removeEventListener(type as \"message\", listener),\n");
    r.append("      } as ");
    r.append(named);
    r.append("WsSocket;\n");
    r
}

/// The connection `accept` returns, with `share` refusing once closed.
pub open spec fn connection_text(named: Seq<char>) -> Seq<char> {
    "      const shared: Array<() => void> = [];\n"@
        + "      const connection: "@
        + named
        + "WsConnection = {\n"@
        + "        socket,\n"@
        + "        signal: controller.signal,\n"@
        + "        close: () => socket.close(),\n"@
        + "        share: (attach) => {\n"@
        + "          if (controller.signal.aborted) throw new Error(\"the connection is closed\");\n"@
        + "          const detachShared = attach(guarded, controller.signal);\n"@
        + "          shared.push(detachShared);\n"@
        + "          return detachShared;\n"@
        + "        },\n"@
        + "      };\n"@
}

pub fn connection_stmt(named: &str) -> (r: String)
    ensures
        r@ == connection_text(named@),
{
    let mut r = String::from_str("      const shared: Array<() => void> = [];\n");
    r.append("      const connection: ");
    r.append(named);
    r.append("WsConnection = {\n");
    r.append("        socket,\n");
    r.append("        signal: controller.signal,\n");
    r.append("        close: () => socket.close(),\n");
    r.append("        share: (attach) => {\n");
    r.append("          if (controller.signal.aborted) throw new Error(\"the connection is closed\");\n");
    r.append("          const detachShared = attach(guarded, controller.signal);\n");
    r.append("          shared.push(detachShared);\n");
    r.append("          return detachShared;\n");
    r.append("        },\n");
    r.append("      };\n");
    r
}

/// Every inbound frame re-arms the idle timer; a `ping` draws a `pong`.
pub open spec fn on_frame_text() -> Seq<char> {
    "      const onFrame = (event: { data: unknown }) => {\n"@
        + "        if (pongDeadline !== undefined) { clearTimeout(pongDeadline); pongDeadline = undefined; }\n"@
        + "        armIdle();\n"@
        + "        let frame: unknown;\n"@
        + "        try { frame = JSON.parse(String(event.data)); } catch { return; }\n"@
        + "        if (typeof frame === \"object\" && frame !== null && (frame as { kind?: unknown }).kind === \"ping\") {\n"@
        + "          socket.send(JSON.stringify({ kind: \"pong\" }));\n"@
        + "        }\n"@
        + "      };\n"@
}

pub fn on_frame_stmt() -> (r: String)
    ensures
        r@ == on_frame_text(),
{
    let mut r = String::from_str("      const onFrame = (event: { data: unknown }) => {\n");
    r.append("        if (pongDeadline !== undefined) { clearTimeout(pongDeadline); pongDeadline = undefined; }\n");
    r.append("        armIdle();\n");
    r.append("        let frame: unknown;\n");
    r.append("        try { frame = JSON.parse(String(event.data)); } catch { return; }\n");
    r.append("        if (typeof frame === \"object\" && frame !== null && (frame as { kind?: unknown }).kind === \"ping\") {\n");
    r.append("          socket.send(JSON.stringify({ kind: \"pong\" }));\n");
    r.append("        }\n");
    r.append("      };\n");
    r
}

/// A socket error is reported and closes the socket.
pub open spec fn on_error_text() -> Seq<char> {
    "      const onError = (event: { error?: unknown }) => {\n"@
        + "        options.onSocketError?.(event.error, connection);\n"@
        + "        socket.close();\n"@
        + "      };\n"@
}

pub fn on_error_stmt() -> (r: String)
    ensures
        r@ == on_error_text(),
{
    let mut r = String::from_str("      const onError = (event: { error?: unknown }) => {\n");
    r.append("        options.onSocketError?.(event.error, connection);\n");
    r.append("        socket.close();\n");
    r.append("      };\n");
    r
}

/// Tears everything about one connection down.
pub open spec fn on_close_text() -> Seq<char> {
    "      const onClose = () => {\n"@
        + "        stopHeartbeat();\n"@
        + "        socket.removeEventListener(\"message\", onFrame);\n"@
        + "        socket.removeEventListener(\"close\", onClose);\n"@
        + "        socket.removeEventListener(\"error\", onError);\n"@
        + "        for (const detachShared of shared.splice(0)) detachShared();\n"@
        + "        detach();\n"@
        + "        connections.delete(connection);\n"@
        + "        controller.abort();\n"@
        + "      };\n"@
}

pub fn on_close_stmt() -> (r: String)
    ensures
        r@ == on_close_text(),
{
    let mut r = String::from_str("      const onClose = () => {\n");
    r.append("        stopHeartbeat();\n");
    r.append("        socket.removeEventListener(\"message\", onFrame);\n");
    r.append("        socket.removeEventListener(\"close\", onClose);\n");
    r.append("        socket.removeEventListener(\"error\", onError);\n");
    r.append("        for (const detachShared of shared.splice(0)) detachShared();\n");
    r.append("        detach();\n");
    r.append("        connections.delete(connection);\n");
    r.append("        controller.abort();\n");
    r.append("      };\n");
    r
}

/// Starts the listeners, attaches the dispatcher with the context, registers and arms the connection.
pub open spec fn wiring_text(named: Seq<char>) -> Seq<char> {
    "      socket.addEventListener(\"message\", onFrame);\n"@
        + "      socket.addEventListener(\"close\", onClose);\n"@
        + "      socket.addEventListener(\"error\", onError);\n"@
        + "      const detach = attach"@
        + named
        + "WsDispatcher(guarded, contextFor(connection), impl, (fault) => options.onFault(fault, connection));\n"@
        + "      connections.add(connection);\n"@
        + "      armIdle();\n"@
        + "      return connection;\n"@
        + "    },\n"@
}

pub fn wiring_and_detach_stmt(named: &str) -> (r: String)
    ensures
        r@ == wiring_text(named@),
{
    let mut r = String::from_str("      socket.addEventListener(\"message\", onFrame);\n");
    r.append("      socket.addEventListener(\"close\", onClose);\n");
    r.append("      socket.addEventListener(\"error\", onError);\n");
    r.append("      const detach = attach");
    r.append(named);
    r.append("WsDispatcher(guarded, contextFor(connection), impl, (fault) => options.onFault(fault, connection));\n");
    r.append("      connections.add(connection);\n");
    r.append("      armIdle();\n");
    r.append("      return connection;\n");
    r.append("    },\n");
    r
}

/// `connections()` and `closeAll()`.
pub open spec fn returned_server_text() -> Seq<char> {
    "    connections: () => [...connections],\n"@
        + "    closeAll: () => { for (const connection of connections) connection.close(); },\n"@
        + "  };\n"@
}

pub fn returned_server_stmt() -> (r: String)
    ensures
        r@ == returned_server_text(),
{
    let mut r = String::from_str("    connections: () => [...connections],\n");
    r.append("    closeAll: () => { for (const connection of connections) connection.close(); },\n");
    r.append("  };\n");
    r
}

} // verus!
