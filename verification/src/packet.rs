//! Packets: the units that a transport carries, as a dialogue sees them.

use vstd::prelude::*;

verus! {

/// Each packet has a `PacketId`, which names the conversation it belongs to.
pub type PacketId = u32;

/// The different types a packet can have.
#[derive(Debug, PartialEq, Eq, Clone, Copy, Structural)]
pub enum PacketType {
    /// A message: nobody answers it.
    Message,
    /// Opens a request when it carries data; without data it withdraws
    /// the request of the same id.
    Request,
    /// Answers a request when it carries data; without data it declines to
    /// answer.
    Response,
    /// Opens a duplex.
    DuplexInitial,
    /// An item sent by the side that opened the duplex.
    DuplexRequest,
    /// An item sent by the side that accepted the duplex.
    DuplexResponse,
    /// The side that opened the duplex sends no more; data it carries is an
    /// error.
    DuplexRequestEnd,
    /// The side that accepted the duplex sends no more; data it carries is an
    /// error.
    DuplexResponseEnd,
}

/// What a packet says: its id, its type and the data it carries, if any.
///
/// A `Frame` is the meaning of any packet, whatever its representation, and
/// is itself the plainest packet there is.
#[derive(Debug, PartialEq, Eq)]
pub struct Frame<Data> {
    pub id: PacketId,
    pub packet_type: PacketType,
    pub data: Option<Data>,
}

/// Values implementing this trait can be received via a `Dialogue`.
pub trait PacketReadable {
    /// The data carried by the packet.
    type Data;

    /// What the packet says. The contracts speak of a packet through this
    /// function; nothing calls it when the program runs.
    spec fn frame(&self) -> Frame<Self::Data>;

    /// Gets the `PacketId` of the packet.
    fn get_id(&self) -> (id: PacketId)
        ensures
            id == self.frame().id,
    ;

    /// Gets the `PacketType` of the packet.
    fn get_type(&self) -> (t: PacketType)
        ensures
            t == self.frame().packet_type,
    ;

    /// Gets the data carried by the packet.
    fn get_data(&self) -> (data: Option<Self::Data>)
        ensures
            data == self.frame().data,
    ;

    /// Returns whether the packet carries no data.
    fn is_empty(&self) -> (empty: bool)
        ensures
            empty == self.frame().data.is_none(),
    {
        self.get_data().is_none()
    }
}

/// Values implementing this trait can be sent via a `Dialogue`.
pub trait PacketWritable: PacketReadable + Sized {
    /// Sets the `PacketId` of the packet and nothing else.
    fn set_id(&mut self, id: PacketId)
        ensures
            final(self).frame() == (Frame { id, ..old(self).frame() }),
    ;

    /// Sets the `PacketType` of the packet and nothing else.
    fn set_type(&mut self, t: PacketType)
        ensures
            final(self).frame() == (Frame { packet_type: t, ..old(self).frame() }),
    ;

    /// Creates a new packet, which carries exactly `data`.
    fn new(data: Option<Self::Data>) -> (packet: Self)
        ensures
            packet.frame().data == data,
    ;
}

impl<Data: Copy> PacketReadable for Frame<Data> {
    type Data = Data;

    open spec fn frame(&self) -> Frame<Data> {
        *self
    }

    fn get_id(&self) -> (id: PacketId) {
        self.id
    }

    fn get_type(&self) -> (t: PacketType) {
        self.packet_type
    }

    fn get_data(&self) -> (data: Option<Data>) {
        self.data
    }
}

impl<Data: Copy> PacketWritable for Frame<Data> {
    fn set_id(&mut self, id: PacketId) {
        self.id = id;
    }

    fn set_type(&mut self, t: PacketType) {
        self.packet_type = t;
    }

    fn new(data: Option<Data>) -> (packet: Self)
        ensures
            packet == (Frame { id: 0, packet_type: PacketType::Message, data }),
    {
        Frame { id: 0, packet_type: PacketType::Message, data }
    }
}

} // verus!
