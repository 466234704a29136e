//! The two legs of an established relay, and the byte counts it reports.

use vstd::prelude::*;

verus! {

/// The reader and writer halves of the client leg and of the host leg; the
/// bytes are copied between them by the caller's I/O runtime.
pub struct GatewayRelay<CR, CW, HR, HW> {
    client_reader: CR,
    client_writer: CW,
    host_reader: HR,
    host_writer: HW,
}

impl<CR, CW, HR, HW> GatewayRelay<CR, CW, HR, HW> {
    /// A relay over the four halves.
    pub fn new(client_reader: CR, client_writer: CW, host_reader: HR, host_writer: HW) -> (r: Self)
        ensures
            r.parts() == (client_reader, client_writer, host_reader, host_writer),
    {
        GatewayRelay { client_reader, client_writer, host_reader, host_writer }
    }

    pub closed spec fn parts(self) -> (CR, CW, HR, HW) {
        (self.client_reader, self.client_writer, self.host_reader, self.host_writer)
    }

    /// The four halves, in the order `new` took them.
    pub fn into_parts(self) -> (r: (CR, CW, HR, HW))
        ensures
            r == self.parts(),
    {
        (self.client_reader, self.client_writer, self.host_reader, self.host_writer)
    }
}

/// Byte counts of a relay that finished cleanly.
#[derive(Clone, Copy, Debug)]
pub struct RelayStats {
    /// Bytes forwarded from the client leg to the host leg.
    pub bytes_client_to_host: u64,
    /// Bytes forwarded from the host leg to the client leg.
    pub bytes_host_to_client: u64,
}

} // verus!
