//! Request and response frames of the host register protocol: construction,
//! serialisation and CRC-checked decoding.
use vstd::prelude::*;
use vstd::slice::slice_subrange;

use crate::crc::{
    calculate_crc, crc_of, finalize, flip_bit, init, lemma_crc_round_trip,
    lemma_crc_update_concat, lemma_single_bit_flip_detected, update,
};

verus! {

/// Marks an object as being sendable over a byte-oriented communications link.
pub trait Sendable {
    /// The bytes that go on the wire for this object.
    spec fn frame(&self) -> Seq<u8>;

    /// Convert to bytes for transmission.
    ///
    /// Copies the frame to the start of `buffer` and leaves the rest as it
    /// was, or gives `BufferTooSmall`, and changes nothing, when the frame
    /// does not fit.
    fn render_to_buffer(&self, buffer: &mut [u8]) -> (r: Result<usize, Error>)
        ensures
            old(buffer)@.len() >= self.frame().len() ==> {
                &&& r matches Ok(n) && n == self.frame().len()
                &&& final(buffer)@ == self.frame() + old(buffer)@.subrange(
                    self.frame().len() as int,
                    old(buffer)@.len() as int,
                )
            },
            old(buffer)@.len() < self.frame().len() ==> {
                &&& r == Err::<usize, Error>(Error::BufferTooSmall)
                &&& final(buffer)@ == old(buffer)@
            },
    ;
}

/// Marks an object as being receivable over a byte-oriented communications link.
pub trait Receivable<'a>: Sized {
    /// What decoding `data`, whose bytes have the CRC residue `calc_crc`, gives.
    spec fn decoded_with_crc(data: Seq<u8>, calc_crc: u8, r: Result<Self, Error>) -> bool;

    /// What decoding `data` gives.
    spec fn decoded(data: Seq<u8>, r: Result<Self, Error>) -> bool;

    /// Convert from received bytes.
    ///
    /// You get `Err` if `data` is not long enough, or if there was a CRC error.
    fn from_bytes(data: &'a [u8]) -> (r: Result<Self, Error>)
        ensures
            Self::decoded(data@, r),
    ;

    /// Convert from received bytes and a pre-calculated CRC.
    ///
    /// You get `Err` if `data` is not long enough, or if there was a CRC error.
    fn from_bytes_with_crc(data: &'a [u8], calc_crc: u8) -> (r: Result<Self, Error>)
        ensures
            Self::decoded_with_crc(data@, calc_crc, r),
    ;
}

/// The ways this API can fail.
#[derive(Debug, Copy, Clone, PartialEq, Eq, Structural)]
pub enum Error {
    BadCrc,
    BadLength,
    BadRequestType,
    BufferTooSmall,
    BadResponseResult,
}

/// The kinds of [`Request`] the host can make to the BMC.
#[derive(Debug, Copy, Clone, PartialEq, Eq, Structural)]
pub enum RequestType {
    Read,
    ReadAlt,
    ShortWrite,
    ShortWriteAlt,
    LongWrite,
    LongWriteAlt,
}

impl RequestType {
    /// The wire byte of this request type.
    pub open spec fn byte(self) -> u8 {
        match self {
            RequestType::Read => 0xC0,
            RequestType::ReadAlt => 0xC1,
            RequestType::ShortWrite => 0xC2,
            RequestType::ShortWriteAlt => 0xC3,
            RequestType::LongWrite => 0xC4,
            RequestType::LongWriteAlt => 0xC5,
        }
    }

    /// The request type whose wire byte is `b`, if any.
    pub open spec fn spec_from_byte(b: u8) -> Option<RequestType> {
        if b == 0xC0 {
            Some(RequestType::Read)
        } else if b == 0xC1 {
            Some(RequestType::ReadAlt)
        } else if b == 0xC2 {
            Some(RequestType::ShortWrite)
        } else if b == 0xC3 {
            Some(RequestType::ShortWriteAlt)
        } else if b == 0xC4 {
            Some(RequestType::LongWrite)
        } else if b == 0xC5 {
            Some(RequestType::LongWriteAlt)
        } else {
            None
        }
    }

    /// The wire byte of this request type.
    pub fn as_u8(self) -> (r: u8)
        ensures
            r == self.byte(),
    {
        match self {
            RequestType::Read => 0xC0,
            RequestType::ReadAlt => 0xC1,
            RequestType::ShortWrite => 0xC2,
            RequestType::ShortWriteAlt => 0xC3,
            RequestType::LongWrite => 0xC4,
            RequestType::LongWriteAlt => 0xC5,
        }
    }

    /// Parse a wire byte; `None` for a byte outside the closed set.
    pub fn from_u8(b: u8) -> (r: Option<RequestType>)
        ensures
            r == Self::spec_from_byte(b),
    {
        match b {
            0xC0 => Some(RequestType::Read),
            0xC1 => Some(RequestType::ReadAlt),
            0xC2 => Some(RequestType::ShortWrite),
            0xC3 => Some(RequestType::ShortWriteAlt),
            0xC4 => Some(RequestType::LongWrite),
            0xC5 => Some(RequestType::LongWriteAlt),
            _ => None,
        }
    }
}

/// The BMC returns this code to indicate whether the previous [`Request`]
/// was successful or not.
#[derive(Debug, Copy, Clone, PartialEq, Eq, Structural)]
pub enum ResponseResult {
    /// The request was correctly understood and actioned.
    Okay,
    /// The request was not correctly understood because the CRC did not match.
    CrcFailure,
    /// The request was received correctly but the request type was not known.
    BadRequestType,
    /// The request was received correctly but the register was not known.
    BadRegister,
    /// The request was received correctly but the given number of bytes
    /// could not be read from or written to the register.
    BadLength,
}

impl ResponseResult {
    /// The wire byte of this result.
    pub open spec fn byte(self) -> u8 {
        match self {
            ResponseResult::Okay => 0xA0,
            ResponseResult::CrcFailure => 0xA1,
            ResponseResult::BadRequestType => 0xA2,
            ResponseResult::BadRegister => 0xA3,
            ResponseResult::BadLength => 0xA4,
        }
    }

    /// The result whose wire byte is `b`, if any.
    pub open spec fn spec_from_byte(b: u8) -> Option<ResponseResult> {
        if b == 0xA0 {
            Some(ResponseResult::Okay)
        } else if b == 0xA1 {
            Some(ResponseResult::CrcFailure)
        } else if b == 0xA2 {
            Some(ResponseResult::BadRequestType)
        } else if b == 0xA3 {
            Some(ResponseResult::BadRegister)
        } else if b == 0xA4 {
            Some(ResponseResult::BadLength)
        } else {
            None
        }
    }

    /// The wire byte of this result.
    pub fn as_u8(self) -> (r: u8)
        ensures
            r == self.byte(),
    {
        match self {
            ResponseResult::Okay => 0xA0,
            ResponseResult::CrcFailure => 0xA1,
            ResponseResult::BadRequestType => 0xA2,
            ResponseResult::BadRegister => 0xA3,
            ResponseResult::BadLength => 0xA4,
        }
    }

    /// Parse a wire byte; `None` for a byte outside the closed set.
    pub fn from_u8(b: u8) -> (r: Option<ResponseResult>)
        ensures
            r == Self::spec_from_byte(b),
    {
        match b {
            0xA0 => Some(ResponseResult::Okay),
            0xA1 => Some(ResponseResult::CrcFailure),
            0xA2 => Some(ResponseResult::BadRequestType),
            0xA3 => Some(ResponseResult::BadRegister),
            0xA4 => Some(ResponseResult::BadLength),
            _ => None,
        }
    }
}

/// A request made by the host to the BMC.
#[derive(Debug, Clone, PartialEq, Eq, Structural)]
pub struct Request {
    pub request_type: RequestType,
    pub register: u8,
    pub length_or_data: u8,
    /// The CRC of the first three wire bytes, as built or as received.
    pub crc: u8,
}

/// The contents of a [`Request`].
pub struct RequestView {
    pub request_type: RequestType,
    pub register: u8,
    pub length_or_data: u8,
    pub crc: u8,
}

impl RequestView {
    /// The three bytes that the CRC covers.
    pub open spec fn header(self) -> Seq<u8> {
        seq![self.request_type.byte(), self.register, self.length_or_data]
    }

    /// The carried CRC is the CRC of the header.
    pub open spec fn wf(self) -> bool {
        self.crc == crc_of(self.header())
    }

    /// The four wire bytes.
    pub open spec fn wire(self) -> Seq<u8> {
        self.header().push(self.crc)
    }
}

/// The decoding of a request frame whose first four bytes have the CRC
/// residue `calc_crc`.
pub open spec fn request_decode(data: Seq<u8>, calc_crc: u8) -> Result<RequestView, Error> {
    if data.len() < 4 {
        Err(Error::BadLength)
    } else if calc_crc != 0 {
        Err(Error::BadCrc)
    } else {
        match RequestType::spec_from_byte(data[0]) {
            None => Err(Error::BadRequestType),
            Some(t) => Ok(
                RequestView {
                    request_type: t,
                    register: data[1],
                    length_or_data: data[2],
                    crc: data[3],
                },
            ),
        }
    }
}

/// The decoding of a request frame, its CRC taken over its first four bytes.
pub open spec fn request_from_bytes(data: Seq<u8>) -> Result<RequestView, Error> {
    if data.len() < 4 {
        Err(Error::BadLength)
    } else {
        request_decode(data, crc_of(data.subrange(0, 4)))
    }
}

/// A decoded value seen through its view.
pub open spec fn result_view<T: View>(r: Result<T, Error>) -> Result<T::V, Error> {
    match r {
        Ok(v) => Ok(v@),
        Err(e) => Err(e),
    }
}

impl View for Request {
    type V = RequestView;

    open spec fn view(&self) -> RequestView {
        RequestView {
            request_type: self.request_type,
            register: self.register,
            length_or_data: self.length_or_data,
            crc: self.crc,
        }
    }
}

impl Request {
    fn with_crc(request_type: RequestType, register: u8, length_or_data: u8) -> (r: Request)
        ensures
            r@.request_type == request_type,
            r@.register == register,
            r@.length_or_data == length_or_data,
            r@.wf(),
    {
        let header = [request_type.as_u8(), register, length_or_data];
        let crc = calculate_crc(&header);
        proof {
            assert(header@ =~= seq![request_type.byte(), register, length_or_data]);
        }
        Request { request_type, register, length_or_data, crc }
    }

    /// Make a new Read Request, requesting the given register and number of
    /// bytes.
    ///
    /// Setting `use_alt` to true will use the alternate Request Type. You
    /// should flip this for every successive call so that duplicate reads can
    /// be detected.
    pub fn new_read(use_alt: bool, register: u8, length: u8) -> (r: Request)
        ensures
            r@.request_type == (if use_alt { RequestType::ReadAlt } else { RequestType::Read }),
            r@.register == register,
            r@.length_or_data == length,
            r@.wf(),
    {
        let request_type = if use_alt {
            RequestType::ReadAlt
        } else {
            RequestType::Read
        };
        Request::with_crc(request_type, register, length)
    }

    /// Make a new Short Write Request, writing the given byte to the given register.
    ///
    /// Setting `use_alt` to true will use the alternate Request Type. You
    /// should flip this for every successive call so that duplicate writes
    /// can be detected.
    pub fn new_short_write(use_alt: bool, register: u8, data: u8) -> (r: Request)
        ensures
            r@.request_type == (if use_alt {
                RequestType::ShortWriteAlt
            } else {
                RequestType::ShortWrite
            }),
            r@.register == register,
            r@.length_or_data == data,
            r@.wf(),
    {
        let request_type = if use_alt {
            RequestType::ShortWriteAlt
        } else {
            RequestType::ShortWrite
        };
        Request::with_crc(request_type, register, data)
    }

    /// Make a new Long Write Request, asking for a number of bytes to be
    /// written to the given register.
    ///
    /// Setting `use_alt` to true will use the alternate Request Type. You
    /// should flip this for every successive call so that duplicate writes
    /// can be detected.
    pub fn new_long_write(use_alt: bool, register: u8, length: u8) -> (r: Request)
        ensures
            r@.request_type == (if use_alt {
                RequestType::LongWriteAlt
            } else {
                RequestType::LongWrite
            }),
            r@.register == register,
            r@.length_or_data == length,
            r@.wf(),
    {
        let request_type = if use_alt {
            RequestType::LongWriteAlt
        } else {
            RequestType::LongWrite
        };
        Request::with_crc(request_type, register, length)
    }

    /// Convert to bytes for transmission.
    pub fn as_bytes(&self) -> (r: [u8; 4])
        ensures
            r@ == self@.wire(),
    {
        let r = [self.request_type.as_u8(), self.register, self.length_or_data, self.crc];
        proof {
            assert(r@ =~= self@.wire());
        }
        r
    }
}

/// Copy `src` into `buffer` from index `start` on.
fn copy_into(src: &[u8], buffer: &mut [u8], start: usize)
    requires
        start + src@.len() <= old(buffer)@.len(),
    ensures
        final(buffer)@.len() == old(buffer)@.len(),
        final(buffer)@ == old(buffer)@.subrange(0, start as int) + src@ + old(buffer)@.subrange(
            start + src@.len(),
            old(buffer)@.len() as int,
        ),
{
    let blen = buffer.len();
    let mut k: usize = 0;
    while k < src.len()
        invariant
            k <= src@.len(),
            start + src@.len() <= buffer@.len(),
            blen == buffer@.len(),
            buffer@.len() == old(buffer)@.len(),
            buffer@ == old(buffer)@.subrange(0, start as int) + src@.subrange(0, k as int)
                + old(buffer)@.subrange(start + k, old(buffer)@.len() as int),
        decreases src@.len() - k,
    {
        buffer[start + k] = src[k];
        k += 1;
        proof {
            assert(buffer@ =~= old(buffer)@.subrange(0, start as int) + src@.subrange(0, k as int)
                + old(buffer)@.subrange(start + k, old(buffer)@.len() as int));
        }
    }
    proof {
        assert(src@.subrange(0, k as int) =~= src@);
    }
}

impl Sendable for Request {
    open spec fn frame(&self) -> Seq<u8> {
        self@.wire()
    }

    fn render_to_buffer(&self, buffer: &mut [u8]) -> (r: Result<usize, Error>) {
        let bytes = self.as_bytes();
        if buffer.len() < 4 {
            return Err(Error::BufferTooSmall);
        }
        copy_into(&bytes, buffer, 0);
        proof {
            assert(final(buffer)@ =~= self.frame() + old(buffer)@.subrange(4, old(buffer)@.len() as int));
        }
        Ok(4)
    }
}

impl<'a> Receivable<'a> for Request {
    open spec fn decoded_with_crc(data: Seq<u8>, calc_crc: u8, r: Result<Request, Error>) -> bool {
        result_view(r) == request_decode(data, calc_crc)
    }

    open spec fn decoded(data: Seq<u8>, r: Result<Request, Error>) -> bool {
        result_view(r) == request_from_bytes(data)
    }

    /// Convert from received bytes; the CRC is checked over the first four.
    fn from_bytes(data: &'a [u8]) -> (r: Result<Request, Error>) {
        if data.len() < 4 {
            return Err(Error::BadLength);
        }
        let head = [data[0], data[1], data[2], data[3]];
        proof {
            assert(head@ =~= data@.subrange(0, 4));
        }
        Request::from_bytes_with_crc(data, calculate_crc(&head))
    }

    /// Convert from received bytes, when the CRC is pre-calculated.
    ///
    /// Use this if you were calculating the CRC on-the-fly, e.g. with a
    /// hardware CRC calculator.
    fn from_bytes_with_crc(data: &'a [u8], calc_crc: u8) -> (r: Result<Request, Error>) {
        if data.len() < 4 {
            return Err(Error::BadLength);
        }
        if calc_crc != 0 {
            // Running the CRC over a frame that carries its own CRC always
            // leaves zero.
            return Err(Error::BadCrc);
        }
        match RequestType::from_u8(data[0]) {
            None => Err(Error::BadRequestType),
            Some(request_type) => Ok(
                Request {
                    request_type,
                    register: data[1],
                    length_or_data: data[2],
                    crc: data[3],
                },
            ),
        }
    }
}

/// Decoding the bytes of a well-formed request gives that request back.
pub proof fn lemma_request_round_trip(x: Request, r: Result<Request, Error>)
    requires
        x@.wf(),
        Request::decoded(x@.wire(), r),
    ensures
        r == Ok::<Request, Error>(x),
{
    let w = x@.wire();
    assert(w.subrange(0, 3) =~= x@.header());
    assert(w.subrange(0, 4) =~= x@.header().push(crc_of(x@.header())));
    lemma_crc_round_trip(x@.header());
    match r {
        Ok(y) => {
            assert(y@ == x@);
        },
        Err(e) => {},
    }
}

/// Inverting any single bit of a well-formed request's bytes makes its
/// decoding fail with `BadCrc`.
pub proof fn lemma_request_bit_flip_detected(x: Request, i: int, j: u8)
    requires
        x@.wf(),
        0 <= i < 4,
        j < 8,
    ensures
        request_from_bytes(flip_bit(x@.wire(), i, j)) == Err::<RequestView, Error>(Error::BadCrc),
{
    let w = x@.wire();
    assert(w =~= x@.header().push(crc_of(x@.header())));
    lemma_crc_round_trip(x@.header());
    lemma_single_bit_flip_detected(w, i, j);
    assert(flip_bit(w, i, j).subrange(0, 4) =~= flip_bit(w, i, j));
}

/// A response sent by the BMC in reply to a [`Request`] from a host.
#[derive(Debug, Clone)]
pub struct Response<'a> {
    pub result: ResponseResult,
    pub data: &'a [u8],
    /// The CRC of the result byte and the data, as built or as received.
    pub crc: u8,
}

/// The contents of a [`Response`].
pub struct ResponseView {
    pub result: ResponseResult,
    pub data: Seq<u8>,
    pub crc: u8,
}

impl ResponseView {
    /// The bytes that the CRC covers: the result byte and the data.
    pub open spec fn body(self) -> Seq<u8> {
        seq![self.result.byte()] + self.data
    }

    /// The carried CRC is the CRC of the body.
    pub open spec fn wf(self) -> bool {
        self.crc == crc_of(self.body())
    }

    /// The wire bytes: result, data, CRC.
    pub open spec fn wire(self) -> Seq<u8> {
        self.body().push(self.crc)
    }
}

/// The decoding of a response frame whose bytes have the CRC residue `calc_crc`.
pub open spec fn response_decode(data: Seq<u8>, calc_crc: u8) -> Result<ResponseView, Error> {
    if data.len() < 2 {
        Err(Error::BadLength)
    } else if calc_crc != 0 {
        Err(Error::BadCrc)
    } else {
        match ResponseResult::spec_from_byte(data[0]) {
            None => Err(Error::BadResponseResult),
            Some(result) => Ok(
                ResponseView {
                    result,
                    data: data.subrange(1, data.len() - 1),
                    crc: data[data.len() - 1],
                },
            ),
        }
    }
}

impl<'a> View for Response<'a> {
    type V = ResponseView;

    open spec fn view(&self) -> ResponseView {
        ResponseView { result: self.result, data: self.data@, crc: self.crc }
    }
}

impl<'a> Response<'a> {
    /// Make a new OK response, with some optional data.
    pub fn new_ok_with_data(data: &'a [u8]) -> (r: Response<'a>)
        ensures
            r@.result == ResponseResult::Okay,
            r@.data == data@,
            r@.wf(),
    {
        let head = [ResponseResult::Okay.as_u8()];
        let mut crc = init();
        crc = update(crc, &head);
        crc = update(crc, data);
        let crc = finalize(crc);
        proof {
            lemma_crc_update_concat(0, head@, data@);
            assert(head@ + data@ =~= seq![ResponseResult::Okay.byte()] + data@);
        }
        Response { result: ResponseResult::Okay, data, crc }
    }

    /// Make a new error response, which carries no data.
    pub fn new_without_data(result: ResponseResult) -> (r: Response<'a>)
        ensures
            r@.result == result,
            r@.data.len() == 0,
            r@.wf(),
    {
        let head = [result.as_u8()];
        let crc = calculate_crc(&head);
        let data: &[u8] = &[];
        proof {
            assert(head@ =~= seq![result.byte()] + data@);
        }
        Response { result, data, crc }
    }
}

impl<'a> PartialEq for Response<'a> {
    /// Two responses are equal when their results, data bytes and CRCs are.
    fn eq(&self, other: &Response<'a>) -> (r: bool) {
        if self.result != other.result || self.crc != other.crc || self.data.len() != other.data.len() {
            return false;
        }
        let mut k: usize = 0;
        while k < self.data.len()
            invariant
                k <= self.data@.len() == other.data@.len(),
                self.data@.subrange(0, k as int) == other.data@.subrange(0, k as int),
            decreases self.data@.len() - k,
        {
            if self.data[k] != other.data[k] {
                return false;
            }
            k += 1;
            proof {
                assert(self.data@.subrange(0, k as int) =~= other.data@.subrange(0, k as int)) by {
                    assert(self.data@.subrange(0, k as int) =~= self.data@.subrange(0, k - 1).push(self.data@[k - 1]));
                    assert(other.data@.subrange(0, k as int) =~= other.data@.subrange(0, k - 1).push(other.data@[k - 1]));
                }
            }
        }
        proof {
            assert(self.data@ =~= self.data@.subrange(0, k as int));
            assert(other.data@ =~= other.data@.subrange(0, k as int));
        }
        true
    }
}

impl<'a> vstd::std_specs::cmp::PartialEqSpecImpl for Response<'a> {
    open spec fn obeys_eq_spec() -> bool {
        true
    }

    open spec fn eq_spec(&self, other: &Response<'a>) -> bool {
        self@ == other@
    }
}

impl<'a> Eq for Response<'a> {

}

impl<'a> Sendable for Response<'a> {
    open spec fn frame(&self) -> Seq<u8> {
        self@.wire()
    }

    fn render_to_buffer(&self, buffer: &mut [u8]) -> (r: Result<usize, Error>) {
        if buffer.len() < 2 || buffer.len() - 2 < self.data.len() {
            return Err(Error::BufferTooSmall);
        }
        let len = 1 + self.data.len() + 1;
        buffer[0] = self.result.as_u8();
        copy_into(self.data, buffer, 1);
        buffer[len - 1] = self.crc;
        proof {
            assert(final(buffer)@ =~= self.frame() + old(buffer)@.subrange(
                len as int,
                old(buffer)@.len() as int,
            ));
        }
        Ok(len)
    }
}

impl<'a> Receivable<'a> for Response<'a> {
    open spec fn decoded_with_crc(data: Seq<u8>, calc_crc: u8, r: Result<Response<'a>, Error>) -> bool {
        result_view(r) == response_decode(data, calc_crc)
    }

    open spec fn decoded(data: Seq<u8>, r: Result<Response<'a>, Error>) -> bool {
        result_view(r) == response_decode(data, crc_of(data))
    }

    /// Convert from received bytes; the CRC is checked over all of them.
    fn from_bytes(data: &'a [u8]) -> (r: Result<Response<'a>, Error>) {
        Response::from_bytes_with_crc(data, calculate_crc(data))
    }

    /// Convert from received bytes, when the CRC is pre-calculated.
    ///
    /// The data of the response is everything between the result byte and
    /// the trailing CRC byte.
    fn from_bytes_with_crc(data: &'a [u8], calc_crc: u8) -> (r: Result<Response<'a>, Error>) {
        if data.len() < 2 {
            return Err(Error::BadLength);
        }
        if calc_crc != 0 {
            // Running the CRC over a frame that carries its own CRC always
            // leaves zero.
            return Err(Error::BadCrc);
        }
        match ResponseResult::from_u8(data[0]) {
            None => Err(Error::BadResponseResult),
            Some(result) => {
                let last = data.len() - 1;
                let body = slice_subrange(data, 1, last);
                Ok(Response { result, data: body, crc: data[last] })
            },
        }
    }
}

/// Decoding the bytes of a well-formed response gives that response back.
pub proof fn lemma_response_round_trip(x: Response, r: Result<Response, Error>)
    requires
        x@.wf(),
        Response::decoded(x@.wire(), r),
    ensures
        r matches Ok(y) && y@ == x@,
{
    let w = x@.wire();
    lemma_crc_round_trip(x@.body());
    assert(w.subrange(1, w.len() - 1) =~= x@.data);
}

/// Inverting any single bit of a well-formed response's bytes makes its
/// decoding fail with `BadCrc`.
pub proof fn lemma_response_bit_flip_detected(x: ResponseView, i: int, j: u8)
    requires
        x.wf(),
        0 <= i < x.wire().len(),
        j < 8,
    ensures
        response_decode(flip_bit(x.wire(), i, j), crc_of(flip_bit(x.wire(), i, j)))
            == Err::<ResponseView, Error>(Error::BadCrc),
{
    lemma_crc_round_trip(x.body());
    lemma_single_bit_flip_detected(x.wire(), i, j);
}

/// Describes the semantic version of this implementation of the BMC
/// interface.
#[derive(Debug, Copy, Clone, PartialEq, Eq, Structural)]
pub struct ProtocolVersion {
    major: u8,
    minor: u8,
    patch: u8,
}

/// A version `v` satisfies the requirement `req` when the majors match and
/// `v` has a greater minor, or the same minor and at least the patch.
pub open spec fn version_compatible(v: (u8, u8, u8), req: (u8, u8, u8)) -> bool {
    v.0 == req.0 && (v.1 > req.1 || (v.1 == req.1 && v.2 >= req.2))
}

impl View for ProtocolVersion {
    type V = (u8, u8, u8);

    closed spec fn view(&self) -> (u8, u8, u8) {
        (self.major, self.minor, self.patch)
    }
}

impl ProtocolVersion {
    /// Construct a new [`ProtocolVersion`] from its major, minor and patch
    /// numbers.
    pub fn new(major: u8, minor: u8, patch: u8) -> (r: ProtocolVersion)
        ensures
            r@ == (major, minor, patch),
    {
        ProtocolVersion { major, minor, patch }
    }

    /// Check if this [`ProtocolVersion`] is compatible with `my_version`.
    pub fn is_compatible_with(&self, my_version: &ProtocolVersion) -> (r: bool)
        ensures
            r == version_compatible(self@, my_version@),
    {
        if self.major == my_version.major {
            if self.minor > my_version.minor {
                true
            } else if self.minor == my_version.minor {
                self.patch >= my_version.patch
            } else {
                false
            }
        } else {
            false
        }
    }

    /// Convert to bytes for transmission.
    pub fn as_bytes(&self) -> (r: [u8; 3])
        ensures
            r@ == seq![self@.0, self@.1, self@.2],
    {
        let r = [self.major, self.minor, self.patch];
        proof {
            assert(r@ =~= seq![self@.0, self@.1, self@.2]);
        }
        r
    }
}

impl Sendable for ProtocolVersion {
    open spec fn frame(&self) -> Seq<u8> {
        seq![self@.0, self@.1, self@.2]
    }

    fn render_to_buffer(&self, buffer: &mut [u8]) -> (r: Result<usize, Error>) {
        let bytes = self.as_bytes();
        if buffer.len() < 3 {
            return Err(Error::BufferTooSmall);
        }
        copy_into(&bytes, buffer, 0);
        proof {
            assert(final(buffer)@ =~= self.frame() + old(buffer)@.subrange(3, old(buffer)@.len() as int));
        }
        Ok(3)
    }
}

} // verus!
