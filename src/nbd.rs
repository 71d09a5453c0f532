//! The network frontend's own decisions: its configuration and which export a
//! handshake request is answered with.

use vstd::prelude::*;

verus! {

/// Configuration of the network block server.
#[derive(Debug, Clone)]
pub struct NbdConfig {
    /// Socket address to listen on, such as `127.0.0.1:10809`.
    pub listen_addr: String,
    /// Export name advertised to clients and expected in the handshake.
    pub export_name: String,
}

impl Default for NbdConfig {
    fn default() -> (r: Self)
        ensures
            r.listen_addr@ == "127.0.0.1:10809"@,
            r.export_name@ == "vram"@,
    {
        NbdConfig {
            listen_addr: "127.0.0.1:10809".to_string(),
            export_name: "vram".to_string(),
        }
    }
}

/// What a client is told about the export it asked for.
#[derive(Debug, Clone, Copy, PartialEq, Eq, Structural)]
pub struct ExportDescriptor {
    pub size: u64,
    pub readonly: bool,
    pub send_flush: bool,
    pub resizeable: bool,
    pub rotational: bool,
    pub send_trim: bool,
}

/// Why a handshake was refused.
#[derive(Debug, Clone, Copy, PartialEq, Eq, Structural)]
pub enum HandshakeError {
    /// The client asked for an export that this server does not offer.
    NotFound,
}

impl HandshakeError {
    pub fn message(&self) -> (r: String)
        ensures
            r@ == "Export not found"@,
    {
        "Export not found".to_string()
    }
}

/// The descriptor of the one export: writable, flush supported, no trim, no
/// resize, not rotational.
pub open spec fn spec_export(size: u64) -> ExportDescriptor {
    ExportDescriptor {
        size,
        readonly: false,
        send_flush: true,
        resizeable: false,
        rotational: false,
        send_trim: false,
    }
}

/// Answers a handshake request for the export `requested` on a backend of
/// `size` bytes: the configured name, matched exactly, gets the descriptor;
/// any other name is not found.
pub fn select_export(config: &NbdConfig, requested: &str, size: u64) -> (r: Result<
    ExportDescriptor,
    HandshakeError,
>)
    ensures
        requested@ == config.export_name@ ==> r == Ok::<ExportDescriptor, HandshakeError>(
            spec_export(size),
        ),
        requested@ != config.export_name@ ==> r == Err::<ExportDescriptor, HandshakeError>(
            HandshakeError::NotFound,
        ),
{
    let name = requested.to_owned();
    if name == config.export_name {
        Ok(
            ExportDescriptor {
                size,
                readonly: false,
                send_flush: true,
                resizeable: false,
                rotational: false,
                send_trim: false,
            },
        )
    } else {
        Err(HandshakeError::NotFound)
    }
}

} // verus!
