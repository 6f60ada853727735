//! The raw channel: ownership of the platform handle, the source
//! addresses resolved at open time, and the decision functions that
//! judge each platform call's result.  The blocking calls themselves
//! (open, send, receive, capture) are made by an unverified shell,
//! which hands their results in as plain values; everything decided
//! about those results is decided, and proved, here.

use vstd::prelude::*;
use crate::addr::Ipv4;
use crate::addr::Mac;
use crate::error::CursedError;
use crate::error::CursedErrorHandle;
use crate::marshal::encode_sockaddr_ll;
use crate::marshal::sockaddr_ll_rep;
use crate::text::fmt_i32;
use crate::text::int_rep;

verus! {

/// The platform handle a channel owns: a raw packet-socket descriptor
/// together with the resolved interface index, or an opaque
/// capture-adapter handle.
#[derive(Clone, Copy, Debug)]
pub enum RawHandle {
    Descriptor { socket: i32, ifindex: i32 },
    Adapter { handle: usize },
}

/// Capture limit handed to the capture-library open call: frames are
/// captured whole up to this many bytes.
pub const PCAP_SNAPLEN: i32 = 65535;

/// Read timeout handed to the capture-library open call: none is
/// configured at open time.
pub const PCAP_OPEN_READ_TIMEOUT: i32 = 0;

/// A raw link-layer channel.  It exclusively owns its platform handle
/// until `destroy` releases it, and carries the interface's source
/// IPv4 and hardware addresses as resolved at open time; the address
/// fields are private and no operation writes them, so they never
/// change afterwards.
pub struct Socket {
    handle: Option<RawHandle>,
    src_ip: Ipv4,
    src_mac: Mac,
}

/// The smaller of two lengths: how many bytes a capture delivers into
/// a caller's buffer.
pub open spec fn copy_len(buffer_len: nat, captured_len: nat) -> nat {
    if buffer_len < captured_len {
        buffer_len
    } else {
        captured_len
    }
}

/// Copies a captured frame into the caller's buffer, silently
/// truncated to the buffer's capacity when the frame is larger.  The
/// buffer keeps its length; bytes past the copied prefix are left as
/// they were.  Hands back how many bytes were copied.
pub fn deliver_capture(buffer: &mut Vec<u8>, captured: &Vec<u8>) -> (n: usize)
    ensures
        n == copy_len(old(buffer)@.len(), captured@.len()),
        final(buffer)@.len() == old(buffer)@.len(),
        forall|i: int| 0 <= i < n ==> final(buffer)@[i] == captured@[i],
        forall|i: int| n <= i < final(buffer)@.len() ==> final(buffer)@[i] == old(buffer)@[i],
{
    let n: usize = if buffer.len() < captured.len() {
        buffer.len()
    } else {
        captured.len()
    };
    let mut i: usize = 0;
    while i < n
        invariant
            i <= n,
            n == copy_len(old(buffer)@.len(), captured@.len()),
            buffer@.len() == old(buffer)@.len(),
            forall|j: int| 0 <= j < i ==> buffer@[j] == captured@[j],
            forall|j: int| i <= j < buffer@.len() ==> buffer@[j] == old(buffer)@[j],
        decreases n - i,
    {
        buffer[i] = captured[i];
        i += 1;
    }
    n
}

impl Socket {
    /// The platform handle the channel still owns, as the contracts
    /// speak of it.
    pub closed spec fn spec_handle(&self) -> Option<RawHandle> {
        self.handle
    }

    /// The platform handle the channel still owns: the shell reads it
    /// to address the platform calls.
    pub fn get_handle(&self) -> (h: Option<RawHandle>)
        ensures
            h == self.spec_handle(),
    {
        self.handle
    }

    /// The stored source IPv4 address, as the contracts speak of it.
    pub closed spec fn spec_src_ip(&self) -> Ipv4 {
        self.src_ip
    }

    /// The stored source hardware address, as the contracts speak of
    /// it.
    pub closed spec fn spec_src_mac(&self) -> Mac {
        self.src_mac
    }

    /// Assembles a channel from an acquired platform handle and the
    /// addresses the resolver produced for the interface.
    pub fn from_parts(handle: RawHandle, src_ip: Ipv4, src_mac: Mac) -> (r: Socket)
        ensures
            r.spec_handle() == Some(handle),
            r.spec_src_ip() == src_ip,
            r.spec_src_mac() == src_mac,
    {
        Socket { handle: Some(handle), src_ip, src_mac }
    }

    /// The source IPv4 address resolved at open time.
    pub fn get_src_ip(&self) -> (r: &Ipv4)
        ensures
            *r == self.spec_src_ip(),
    {
        &self.src_ip
    }

    /// The source hardware address resolved at open time.
    pub fn get_src_mac(&self) -> (r: &Mac)
        ensures
            *r == self.spec_src_mac(),
    {
        &self.src_mac
    }

    /// The link-layer destination descriptor for a send on this
    /// channel: present exactly when the channel still holds a
    /// descriptor-based handle, and then embedding the stored
    /// interface index and the channel's own hardware address.
    pub fn send_link_addr(&self) -> (r: Option<Vec<u8>>)
        ensures
            (r is Some) <==> (self.spec_handle() matches Some(RawHandle::Descriptor { .. })),
            self.spec_handle() matches Some(RawHandle::Descriptor { socket: _, ifindex }) ==> (
            r matches Some(v) && v@ == sockaddr_ll_rep(ifindex, self.spec_src_mac().octets@)),
    {
        match self.handle {
            Some(RawHandle::Descriptor { socket: _, ifindex }) => Some(
                encode_sockaddr_ll(ifindex, &self.src_mac),
            ),
            _ => None,
        }
    }

    /// Decision on a send call's result: a negative count reports a
    /// socket-operation failure, a non-negative count is the number of
    /// bytes accepted.  Transmission changes no channel state.
    pub fn send_outcome(&self, length: isize) -> (r: Result<(), CursedErrorHandle>)
        ensures
            (length >= 0) <==> (r is Ok),
            r matches Err(e) ==> e.kind == CursedError::Sockets && e.reason@
                == "Can't send buffer"@,
    {
        if length < 0 {
            Err(CursedErrorHandle::new(CursedError::Sockets, "Can't send buffer".to_owned()))
        } else {
            Ok(())
        }
    }

    /// Decision on a capture-library injection result: a negative
    /// count reports a socket-operation failure quoting the library's
    /// error text, a non-negative count is the number of bytes
    /// accepted.
    pub fn pcap_send_outcome(&self, length: i32, error_text: &str) -> (r: Result<
        (),
        CursedErrorHandle,
    >)
        ensures
            (length >= 0) <==> (r is Ok),
            r matches Err(e) ==> e.kind == CursedError::Sockets && e.reason@
                == "Can't send buffer due to \""@ + error_text@ + "\""@,
    {
        if length < 0 {
            let mut reason = "Can't send buffer due to \"".to_owned();
            reason.append(error_text);
            reason.append("\"");
            Err(CursedErrorHandle::new(CursedError::Sockets, reason))
        } else {
            Ok(())
        }
    }

    /// Decision on a blocking receive call's result: a negative count
    /// reports a socket-operation failure, a non-negative count means
    /// the buffer was filled with that many bytes.
    pub fn recv_outcome(&self, length: isize) -> (r: Result<(), CursedErrorHandle>)
        ensures
            (length >= 0) <==> (r is Ok),
            r matches Err(e) ==> e.kind == CursedError::Sockets && e.reason@
                == "Can't receive packet"@,
    {
        if length < 0 {
            Err(CursedErrorHandle::new(CursedError::Sockets, "Can't receive packet".to_owned()))
        } else {
            Ok(())
        }
    }

    /// Decision on a capture-library next-packet result: a positive
    /// result means a frame was captured and is to be delivered; zero
    /// reports that the adapter's read timeout elapsed with no frame;
    /// a negative result is a library error, reported as a
    /// socket-operation failure quoting the library's error text and
    /// never treated as a frame.
    pub fn capture_outcome(&self, result: i32, error_text: &str) -> (r: Result<
        (),
        CursedErrorHandle,
    >)
        ensures
            (result > 0) <==> (r is Ok),
            result == 0 ==> (r matches Err(e) && e.kind == CursedError::TimeOut && e.reason@
                == "reading raw packet timed out"@),
            result < 0 ==> (r matches Err(e) && e.kind == CursedError::Sockets && e.reason@
                == "Can't receive packet due to \""@ + error_text@ + "\""@),
    {
        if result == 0 {
            Err(
                CursedErrorHandle::new(
                    CursedError::TimeOut,
                    "reading raw packet timed out".to_owned(),
                ),
            )
        } else if result < 0 {
            let mut reason = "Can't receive packet due to \"".to_owned();
            reason.append(error_text);
            reason.append("\"");
            Err(CursedErrorHandle::new(CursedError::Sockets, reason))
        } else {
            Ok(())
        }
    }

    /// Caller-facing result of a receive bounded by a deadline.  The
    /// shell runs the blocking receive concurrently and waits out the
    /// deadline: if the receive finished first its result is handed in
    /// and passed through unchanged; if the deadline elapsed first
    /// nothing is handed in and the caller gets a timeout error.  The
    /// background attempt is not cancelled, so after a timeout the
    /// buffer's contents are undefined until it is known to have
    /// finished.
    pub fn read_raw_packet_timeout(&self, outcome: Option<Result<(), CursedErrorHandle>>) -> (r:
        Result<(), CursedErrorHandle>)
        ensures
            outcome matches Some(inner) ==> r == inner,
            outcome is None ==> (r matches Err(e) && e.kind == CursedError::TimeOut && e.reason@
                == "socket read timed out!"@),
    {
        match outcome {
            Some(result) => result,
            None => Err(
                CursedErrorHandle::new(CursedError::TimeOut, "socket read timed out!".to_owned()),
            ),
        }
    }

    /// Releases ownership of the platform handle.  The first call on a
    /// descriptor-backed channel hands back the descriptor for the
    /// shell to close; any further call, and any call on a channel
    /// with no descriptor to release, hands back nothing and is
    /// harmless.  The source addresses survive.
    pub fn destroy(&mut self) -> (r: Option<i32>)
        ensures
            final(self).spec_handle() is None,
            final(self).spec_src_ip() == old(self).spec_src_ip(),
            final(self).spec_src_mac() == old(self).spec_src_mac(),
            old(self).spec_handle() matches Some(RawHandle::Descriptor { socket, .. }) ==> r == Some(
                socket,
            ),
            !(old(self).spec_handle() matches Some(RawHandle::Descriptor { .. })) ==> r is None,
    {
        let r: Option<i32> = match self.handle {
            Some(RawHandle::Descriptor { socket, ifindex: _ }) => Some(socket),
            _ => None,
        };
        self.handle = None;
        r
    }

    /// Decision on the OS answer to a raw-packet-socket open: a
    /// negative descriptor reports an initialization failure naming
    /// the value, a non-negative descriptor is handed through.
    pub fn open_socket_outcome(socket: i32) -> (r: Result<i32, CursedErrorHandle>)
        ensures
            (socket >= 0) <==> (r is Ok),
            r matches Ok(s) ==> s == socket,
            r matches Err(e) ==> e.kind == CursedError::Initialize && e.reason@
                == "Can't initialize socket ("@ + int_rep(socket as int) + " < 0)"@,
    {
        if socket < 0 {
            let mut reason = "Can't initialize socket (".to_owned();
            reason.append(fmt_i32(socket).as_str());
            reason.append(" < 0)");
            Err(CursedErrorHandle::new(CursedError::Initialize, reason))
        } else {
            Ok(socket)
        }
    }

    /// The capture-library connection string addressing a named
    /// adapter.
    pub fn pcap_device_string(interface: &str) -> (s: String)
        ensures
            s@ == "rpcap://\\Device\\NPF_"@ + interface@,
    {
        let mut s = "rpcap://\\Device\\NPF_".to_owned();
        s.append(interface);
        s
    }

    /// Decision on the capture-library open result: a null handle
    /// reports a socket-operation failure carrying the library's
    /// error text, any other handle is handed through.
    pub fn pcap_open_outcome(adapter: usize, error_text: &str) -> (r: Result<
        usize,
        CursedErrorHandle,
    >)
        ensures
            (adapter != 0) <==> (r is Ok),
            r matches Ok(h) ==> h == adapter,
            r matches Err(e) ==> e.kind == CursedError::Sockets && e.reason@
                == "Can't open adapted due to "@ + error_text@,
    {
        if adapter == 0 {
            let mut reason = "Can't open adapted due to ".to_owned();
            reason.append(error_text);
            Err(CursedErrorHandle::new(CursedError::Sockets, reason))
        } else {
            Ok(adapter)
        }
    }

    /// The fixed error every operation answers with on a platform
    /// neither back-end supports.
    pub fn unsupported_platform(os: &str) -> (r: CursedErrorHandle)
        ensures
            r.kind == CursedError::OS,
            r.reason@ == os@ + " is not supported yet!"@,
    {
        let mut reason = os.to_owned();
        reason.append(" is not supported yet!");
        CursedErrorHandle::new(CursedError::OS, reason)
    }
}

} // verus!
