//! The wire codec for the device-link frames: one opcode byte, then the
//! frame's payload. A partial frame decodes to "not yet"; an unknown
//! opcode or answer code is a decode error.

use vstd::prelude::*;

verus! {

/// The answer a connection attempt gets.
#[derive(Clone, Copy, Debug, PartialEq, Eq, Structural)]
pub enum ResponseCode {
    /// The connection is accepted.
    Accepted,
    /// The credentials were refused.
    Unauthorized,
}

/// The wire byte of an answer code.
pub open spec fn code_byte(rc: ResponseCode) -> u8 {
    match rc {
        ResponseCode::Accepted => 0,
        ResponseCode::Unauthorized => 1,
    }
}

/// The answer code a wire byte denotes.
pub open spec fn code_of_byte(b: u8) -> Option<ResponseCode> {
    if b == 0 {
        Some(ResponseCode::Accepted)
    } else if b == 1 {
        Some(ResponseCode::Unauthorized)
    } else {
        None
    }
}

/// One frame of the device link.
#[derive(Clone, Copy, Debug, PartialEq, Eq)]
pub enum Frame {
    /// A client introduces itself.
    Connect {
        /// The client's fixed-width id.
        client_id: [u8; 16],
    },
    /// The server answers a connection attempt.
    ConnACK {
        /// The answer.
        response_code: ResponseCode,
    },
}

/// A decode failure.
#[derive(Clone, Copy, Debug, PartialEq, Eq, Structural)]
pub enum Error {
    /// The first byte names no known frame, or a connection answer
    /// carries no known code.
    InvalidOpcode(u8),
    /// A connection answer carries no known code.
    InvalidResponseCode(u8),
}

/// The wire bytes of a frame: the opcode, then the payload.
pub open spec fn spec_encode(f: Frame) -> Seq<u8> {
    match f {
        Frame::Connect { client_id } => seq![0u8] + client_id@,
        Frame::ConnACK { response_code } => seq![1u8, code_byte(response_code)],
    }
}

/// The stateless frame codec.
pub struct FrameCodec {}

impl FrameCodec {
    /// A fresh codec.
    pub fn new() -> FrameCodec {
        FrameCodec {}
    }

    /// Appends the wire bytes of `item` to `dst`.
    pub fn encode(&mut self, item: Frame, dst: &mut Vec<u8>)
        ensures
            final(dst)@ == old(dst)@ + spec_encode(item),
    {
        match item {
            Frame::Connect { client_id } => {
                dst.push(0);
                let mut i: usize = 0;
                while i < 16
                    invariant
                        i <= 16,
                        dst@ == old(dst)@ + seq![0u8] + client_id@.take(i as int),
                    decreases 16 - i,
                {
                    dst.push(client_id[i]);
                    i = i + 1;
                    proof {
                        assert(dst@ =~= old(dst)@ + seq![0u8] + client_id@.take(i as int));
                    }
                }
                proof {
                    assert(client_id@.take(16) =~= client_id@);
                    assert(dst@ =~= old(dst)@ + spec_encode(item));
                }
            },
            Frame::ConnACK { response_code } => {
                dst.push(1);
                let code: u8 = match response_code {
                    ResponseCode::Accepted => 0,
                    ResponseCode::Unauthorized => 1,
                };
                dst.push(code);
                proof {
                    assert(dst@ =~= old(dst)@ + spec_encode(item));
                }
            },
        }
    }

    /// Decodes one frame off the front of `src`, consuming its bytes.
    /// Returns `Ok(None)` when a whole frame has not yet arrived,
    /// leaving `src` as it is.
    pub fn decode(&mut self, src: &mut Vec<u8>) -> (r: Result<Option<Frame>, Error>)
        ensures
            match r {
                Ok(None) => final(src)@ == old(src)@ && (old(src)@.len() == 0 || (old(src)@[0] == 0
                    && old(src)@.len() < 17) || (old(src)@[0] == 1 && old(src)@.len() < 2)),
                Ok(Some(f)) => match f {
                    Frame::Connect { client_id } => old(src)@.len() >= 17 && old(src)@[0] == 0
                        && client_id@ == old(src)@.subrange(1, 17) && final(src)@ == old(
                        src,
                    )@.skip(17),
                    Frame::ConnACK { response_code } => old(src)@.len() >= 2 && old(src)@[0] == 1
                        && code_of_byte(old(src)@[1]) == Some(response_code) && final(src)@ == old(
                        src,
                    )@.skip(2),
                },
                Err(e) => match e {
                    Error::InvalidOpcode(b) => old(src)@.len() >= 1 && ((b == old(src)@[0] && old(
                        src,
                    )@[0] != 0 && old(src)@[0] != 1 && final(src)@ == old(src)@.skip(1)) || (old(
                        src,
                    )@[0] == 1 && old(src)@.len() >= 2 && b == old(src)@[1] && code_of_byte(
                        old(src)@[1],
                    ) is None && final(src)@ == old(src)@.skip(2))),
                    Error::InvalidResponseCode(_) => false,
                },
            },
    {
        let n = src.len();
        if n == 0 {
            return Ok(None);
        }
        let opcode = src[0];
        if opcode == 0 {
            if n < 17 {
                return Ok(None);
            }
            let mut client_id: [u8; 16] = [0; 16];
            let mut i: usize = 0;
            while i < 16
                invariant
                    i <= 16,
                    src@.len() == n >= 17,
                    forall|k: int| 0 <= k < i ==> client_id@[k] == src@[k + 1],
                decreases 16 - i,
            {
                client_id[i] = src[i + 1];
                i = i + 1;
            }
            proof {
                assert(client_id@ =~= src@.subrange(1, 17));
            }
            let rest = tail_from(src, 17);
            *src = rest;
            Ok(Some(Frame::Connect { client_id }))
        } else if opcode == 1 {
            if n < 2 {
                return Ok(None);
            }
            let code = src[1];
            let rest = tail_from(src, 2);
            *src = rest;
            if code == 0 {
                Ok(Some(Frame::ConnACK { response_code: ResponseCode::Accepted }))
            } else if code == 1 {
                Ok(Some(Frame::ConnACK { response_code: ResponseCode::Unauthorized }))
            } else {
                Err(Error::InvalidOpcode(code))
            }
        } else {
            let rest = tail_from(src, 1);
            *src = rest;
            Err(Error::InvalidOpcode(opcode))
        }
    }
}

/// Copies the bytes of `v` from `from` on into a fresh vector.
fn tail_from(v: &Vec<u8>, from: usize) -> (r: Vec<u8>)
    requires
        from <= v@.len(),
    ensures
        r@ == v@.skip(from as int),
{
    let mut r: Vec<u8> = Vec::new();
    let mut i: usize = from;
    while i < v.len()
        invariant
            from <= i <= v@.len(),
            r@ == v@.subrange(from as int, i as int),
        decreases v@.len() - i,
    {
        r.push(v[i]);
        i = i + 1;
        proof {
            assert(r@ =~= v@.subrange(from as int, i as int));
        }
    }
    proof {
        assert(r@ =~= v@.skip(from as int));
    }
    r
}

} // verus!
