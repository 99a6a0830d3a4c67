use vstd::prelude::*;

verus! {

/// Marker for the types that turn a transport's frames into protocol messages.
pub trait ProtocolParser {
}

/// Turns one frame of a websocket (or the transport error in its place) into a
/// message of type `Output`, an error, or nothing where the frame is of no
/// interest (a ping, a heartbeat).
pub trait WebsocketParser<Output, ParseError>: ProtocolParser {
    type Message;

    type Error;

    /// What `parse` makes of `input`. An implementation verified here states
    /// it; the default promises nothing.
    closed spec fn parse_spec(input: Result<Self::Message, Self::Error>) -> Option<Result<Output, ParseError>> {
        arbitrary()
    }

    fn parse(input: Result<Self::Message, Self::Error>) -> (r: Option<Result<Output, ParseError>>)
        ensures
            r == Self::parse_spec(input),
    ;
}

/// Marker for the parsers of request/response protocols.
pub trait HttpParser: ProtocolParser {
}

} // verus!
