//! The TypeScript `ws_rpc` server for a process that accepts connections: a set of open
//! connections, a context per connection, an idle-armed heartbeat, and a hook that hands one
//! socket to a second service. Wraps the single-socket attachment.

use crate::service::ServiceDef;
use crate::ws_server_text::{
    accept_heartbeat_stmt, accept_heartbeat_text, accept_layout, accept_opening_stmt,
    accept_opening_text, accept_text, connection_stmt, connection_text, connection_type,
    connection_type_text, create_server_layout, create_server_text, guarded_socket_stmt,
    guarded_socket_text, on_close_stmt, on_close_text, on_error_stmt, on_error_text,
    on_frame_stmt, on_frame_text, returned_server_stmt, returned_server_text, server_header_stmt,
    server_header_text, server_options_type, server_options_type_text, server_socket_type,
    server_socket_type_text, wiring_and_detach_stmt, wiring_text,
};
use vstd::prelude::*;

verus! {

/// `create{Named}WsServer`: its header, `accept`, and the handle it returns.
#[verifier::opaque]
pub open spec fn create_server_fn_text(named: Seq<char>) -> Seq<char> {
    create_server_text(
        server_header_text(named),
        accept_text(
            accept_opening_text(),
            accept_heartbeat_text(),
            guarded_socket_text(named),
            connection_text(named),
            on_frame_text(),
            on_error_text(),
            on_close_text(),
            wiring_text(named),
        ),
        returned_server_text(),
    )
}

/// Everything the server publishes for a service named `named`, in order: the accepted socket's
/// seam, the connection, the options, and the factory.
pub open spec fn ws_server_texts(named: Seq<char>) -> Seq<Seq<char>> {
    seq![
        server_socket_type_text(named),
        connection_type_text(named),
        server_options_type_text(named),
        create_server_fn_text(named),
    ]
}

/// The server's four declarations for `service`: [`ws_server_texts`] of its name.
pub fn emit(service: &ServiceDef) -> (r: Vec<String>)
    ensures
        r.deep_view() == ws_server_texts(service.ident@),
{
    let named = service.ident.as_str();
    let mut published: Vec<String> = Vec::new();
    published.push(server_socket_type(named));
    published.push(connection_type(named));
    published.push(server_options_type(named));
    published.push(create_server_fn(named));
    assert(published.deep_view() =~= ws_server_texts(service.ident@));
    published
}

fn create_server_fn(named: &str) -> (r: String)
    ensures
        r@ == create_server_fn_text(named@),
{
    reveal(create_server_fn_text);
    let header = server_header_stmt(named);
    let opening = accept_opening_stmt();
    let heartbeat = accept_heartbeat_stmt();
    let guarded = guarded_socket_stmt(named);
    let connection = connection_stmt(named);
    let on_frame = on_frame_stmt();
    let on_error = on_error_stmt();
    let on_close = on_close_stmt();
    let wiring = wiring_and_detach_stmt(named);
    let accept = accept_layout(
        opening.as_str(),
        heartbeat.as_str(),
        guarded.as_str(),
        connection.as_str(),
        on_frame.as_str(),
        on_error.as_str(),
        on_close.as_str(),
        wiring.as_str(),
    );
    let returned = returned_server_stmt();
    create_server_layout(header.as_str(), accept.as_str(), returned.as_str())
}

} // verus!
