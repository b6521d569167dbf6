//! Messages between the control program and the compositor, and their frames.
//!
//! A frame is the length of its contents, in four bytes with the lowest first,
//! and the contents. A request is one frame; a response is one frame, followed
//! by another where it carries a picture.
use vstd::prelude::*;
use crate::config::load::{join_path, joined, path_view};
use vstd::utf8::encode_utf8;
use crate::float::F64;

verus! {

/// What the control program asks for.
#[derive(Debug, PartialEq, Eq)]
pub enum IpcRequest {
    ListWindows,
    FocusWindow { id: u64 },
    CloseWindow { id: u64 },
    MoveWindow { id: u64, x: i32, y: i32 },
    ResizeWindow { id: u64, w: i32, h: i32 },
    Screenshot { output: Option<String> },
    ListOutputs,
}

/// What the compositor answers.
#[derive(Debug, PartialEq, Eq)]
pub enum IpcResponse {
    Windows { windows: Vec<WindowInfo> },
    /// It was done.
    Done,
    Error { message: String },
    Screenshot { png_length: u64, width: u32, height: u32 },
    Outputs { outputs: Vec<OutputInfo> },
}

#[derive(Debug, PartialEq, Eq)]
pub struct WindowInfo {
    pub id: u64,
    pub title: String,
    pub app_id: String,
    /// (x, y, width, height) in logical coordinates, if available.
    pub geometry: Option<(i32, i32, i32, i32)>,
}

#[derive(Debug, PartialEq, Eq)]
pub struct OutputInfo {
    pub name: String,
    pub width: u32,
    pub height: u32,
    pub scale: F64,
}

/// The most bytes that the contents of a request or a response may have.
pub const MAX_FRAME: usize = 16_777_216;

/// A number in four bytes, the lowest first; of a larger number the lowest 32 bits.
pub open spec fn le_bytes(n: int) -> Seq<u8> {
    seq![
        (n % 256) as u8,
        ((n / 0x100) % 256) as u8,
        ((n / 0x1_0000) % 256) as u8,
        ((n / 0x100_0000) % 256) as u8,
    ]
}

/// The number in four bytes.
pub open spec fn le_value(b: Seq<u8>) -> int {
    b[0] + 0x100 * b[1] + 0x1_0000 * b[2] + 0x100_0000 * b[3]
}

/// A frame with these contents.
pub open spec fn frame(contents: Seq<u8>) -> Seq<u8> {
    le_bytes(contents.len() as int) + contents
}

/// A response with these contents, and the picture that it may carry.
pub open spec fn response_frames(contents: Seq<u8>, binary: Option<Seq<u8>>) -> Seq<u8> {
    match binary {
        Some(data) => frame(contents) + frame(data),
        None => frame(contents),
    }
}

/// Four bytes hold the lowest 32 bits of a number.
pub proof fn le_bytes_hold_the_number(n: int)
    requires
        0 <= n,
    ensures
        le_value(le_bytes(n)) == n % 0x1_0000_0000,
{
    let q1 = n / 0x100;
    let q2 = n / 0x1_0000;
    let q3 = n / 0x100_0000;
    let q4 = n / 0x1_0000_0000;
    vstd::arithmetic::div_mod::lemma_div_denominator(n, 0x100, 0x100);
    vstd::arithmetic::div_mod::lemma_div_denominator(n, 0x1_0000, 0x100);
    vstd::arithmetic::div_mod::lemma_div_denominator(n, 0x100_0000, 0x100);
    assert(n == 0x100 * q1 + n % 256);
    assert(q1 == 0x100 * q2 + q1 % 256);
    assert(q2 == 0x100 * q3 + q2 % 256);
    assert(q3 == 0x100 * q4 + q3 % 256);
    assert(n == 0x1_0000_0000 * q4 + n % 0x1_0000_0000);
}

fn push_le_bytes(out: &mut Vec<u8>, n: usize)
    ensures
        final(out)@ == old(out)@ + le_bytes(n as int),
{
    let ghost before = out@;
    let v: u64 = n as u64;
    out.push((v % 256) as u8);
    out.push(((v / 0x100) % 256) as u8);
    out.push(((v / 0x1_0000) % 256) as u8);
    out.push(((v / 0x100_0000) % 256) as u8);
    assert(out@ =~= before + le_bytes(n as int));
}

fn push_frame(out: &mut Vec<u8>, contents: &Vec<u8>)
    ensures
        final(out)@ == old(out)@ + frame(contents@),
{
    let ghost before = out@;
    push_le_bytes(out, contents.len());
    let ghost headed = out@;
    let mut i: usize = 0;
    while i < contents.len()
        invariant
            i <= contents@.len(),
            out@ == headed + contents@.take(i as int),
        decreases contents@.len() - i,
    {
        out.push(contents[i]);
        i = i + 1;
        assert(out@ =~= headed + contents@.take(i as int));
    }
    assert(contents@.take(i as int) == contents@);
    assert(out@ =~= before + frame(contents@));
}

/// The bytes of a request.
pub fn encode_request(contents: &Vec<u8>) -> (out: Vec<u8>)
    ensures
        out@ == frame(contents@),
{
    let mut out: Vec<u8> = Vec::new();
    push_frame(&mut out, contents);
    assert(out@ =~= frame(contents@));
    out
}

/// The bytes of a response.
pub fn encode_response(contents: &Vec<u8>, binary: &Option<Vec<u8>>) -> (out: Vec<u8>)
    ensures
        out@ == response_frames(
            contents@,
            match binary {
                Some(data) => Some(data@),
                None => None,
            },
        ),
{
    let mut out: Vec<u8> = Vec::new();
    push_frame(&mut out, contents);
    assert(out@ =~= frame(contents@));
    match binary {
        Some(data) => {
            push_frame(&mut out, data);
        },
        None => {},
    }
    out
}

/// Why bytes are not a message.
#[derive(Clone, Copy, Debug, PartialEq, Eq, Structural)]
pub enum FrameError {
    /// There are fewer bytes than the frame should have.
    Truncated,
    /// The contents are longer than allowed.
    TooLarge,
}

/// The length in the head of a frame, where it is within the limit.
pub open spec fn length_of(head: Seq<u8>, limit: int) -> Result<int, FrameError> {
    if le_value(head) > limit {
        Err(FrameError::TooLarge)
    } else {
        Ok(le_value(head))
    }
}

/// The length of a request's or a response's contents, from the head of its frame.
pub fn frame_length(b0: u8, b1: u8, b2: u8, b3: u8) -> (r: Result<usize, FrameError>)
    ensures
        match length_of(seq![b0, b1, b2, b3], MAX_FRAME as int) {
            Ok(n) => r matches Ok(m) && m == n,
            Err(e) => r == Err::<usize, FrameError>(e),
        },
{
    let n: u64 = binary_length(b0, b1, b2, b3);
    if n > 16_777_216 {
        Err(FrameError::TooLarge)
    } else {
        Ok(n as usize)
    }
}

/// The length of a picture, from the head of its frame. There is no limit.
pub fn binary_length(b0: u8, b1: u8, b2: u8, b3: u8) -> (n: u64)
    ensures
        n == le_value(seq![b0, b1, b2, b3]),
{
    b0 as u64 + 0x100 * b1 as u64 + 0x1_0000 * b2 as u64 + 0x100_0000 * b3 as u64
}

/// What a reader takes from some bytes: the contents of a frame, and how many
/// bytes it was.
pub open spec fn read_frame(bytes: Seq<u8>, limit: int) -> Result<Seq<u8>, FrameError> {
    if bytes.len() < 4 {
        Err(FrameError::Truncated)
    } else {
        match length_of(bytes.take(4), limit) {
            Err(e) => Err(e),
            Ok(n) => if bytes.len() < 4 + n {
                Err(FrameError::Truncated)
            } else {
                Ok(bytes.subrange(4, 4 + n))
            },
        }
    }
}

/// Takes the contents of the frame that begins at `from`.
fn take_frame(bytes: &Vec<u8>, from: usize, limit: u64) -> (r: Result<Vec<u8>, FrameError>)
    requires
        from <= bytes@.len(),
    ensures
        match read_frame(bytes@.skip(from as int), limit as int) {
            Ok(contents) => r matches Ok(v) && v@ == contents,
            Err(e) => r matches Err(f) && f == e,
        },
{
    let left: usize = bytes.len() - from;
    let ghost rest = bytes@.skip(from as int);
    if left < 4 {
        return Err(FrameError::Truncated);
    }
    let n: u64 = binary_length(
        bytes[from],
        bytes[from + 1],
        bytes[from + 2],
        bytes[from + 3],
    );
    assert(rest.take(4) =~= seq![
        bytes@[from as int],
        bytes@[from + 1],
        bytes@[from + 2],
        bytes@[from + 3],
    ]);
    if n > limit {
        return Err(FrameError::TooLarge);
    }
    if n > (left - 4) as u64 {
        return Err(FrameError::Truncated);
    }
    let count: usize = n as usize;
    let mut out: Vec<u8> = Vec::new();
    let mut i: usize = 0;
    while i < count
        invariant
            i <= count,
            from + 4 + count <= bytes@.len(),
            rest == bytes@.skip(from as int),
            bytes@.len() == from + left,
            from + left <= usize::MAX,
            out@ == rest.subrange(4, 4 + i),
        decreases count - i,
    {
        out.push(bytes[from + 4 + i]);
        i = i + 1;
        assert(out@ =~= rest.subrange(4, 4 + i));
    }
    Ok(out)
}

/// The contents of a request.
pub fn decode_request(bytes: &Vec<u8>) -> (r: Result<Vec<u8>, FrameError>)
    ensures
        match read_frame(bytes@, MAX_FRAME as int) {
            Ok(contents) => r matches Ok(v) && v@ == contents,
            Err(e) => r matches Err(f) && f == e,
        },
{
    assert(bytes@.skip(0) == bytes@);
    take_frame(bytes, 0, 16_777_216)
}

/// What follows the frame at the beginning of some bytes.
pub open spec fn after_frame(bytes: Seq<u8>) -> Seq<u8> {
    bytes.skip(4 + le_value(bytes.take(4)))
}

/// The contents of a response.
pub fn decode_response(bytes: &Vec<u8>) -> (r: Result<Vec<u8>, FrameError>)
    ensures
        match read_frame(bytes@, MAX_FRAME as int) {
            Ok(contents) => r matches Ok(v) && v@ == contents,
            Err(e) => r matches Err(f) && f == e,
        },
{
    decode_request(bytes)
}

/// The picture behind the contents of a response.
pub fn decode_binary(bytes: &Vec<u8>) -> (r: Result<Vec<u8>, FrameError>)
    requires
        read_frame(bytes@, MAX_FRAME as int) is Ok,
    ensures
        match read_frame(after_frame(bytes@), 0xffff_ffff) {
            Ok(contents) => r matches Ok(v) && v@ == contents,
            Err(e) => r matches Err(f) && f == e,
        },
{
    let n: u64 = binary_length(bytes[0], bytes[1], bytes[2], bytes[3]);
    assert(bytes@.take(4) =~= seq![bytes@[0], bytes@[1], bytes@[2], bytes@[3]]);
    take_frame(bytes, 4 + n as usize, 0xffff_ffff)
}

/// What was written is what is read: a request within the limit comes back as
/// it was, whatever follows it; one beyond the limit is refused.
pub proof fn requests_read_back(contents: Seq<u8>, more: Seq<u8>)
    requires
        contents.len() < 0x1_0000_0000,
    ensures
        contents.len() <= MAX_FRAME ==> read_frame(frame(contents) + more, MAX_FRAME as int) == Ok::<
            Seq<u8>,
            FrameError,
        >(contents),
        contents.len() > MAX_FRAME ==> read_frame(frame(contents) + more, MAX_FRAME as int) == Err::<
            Seq<u8>,
            FrameError,
        >(FrameError::TooLarge),
{
    frames_read_back(contents, more, MAX_FRAME as int);
}

proof fn frames_read_back(contents: Seq<u8>, more: Seq<u8>, limit: int)
    requires
        contents.len() < 0x1_0000_0000,
    ensures
        contents.len() <= limit ==> read_frame(frame(contents) + more, limit) == Ok::<
            Seq<u8>,
            FrameError,
        >(contents),
        contents.len() > limit ==> read_frame(frame(contents) + more, limit) == Err::<
            Seq<u8>,
            FrameError,
        >(FrameError::TooLarge),
        after_frame(frame(contents) + more) == more,
{
    let n = contents.len() as int;
    let bytes = frame(contents) + more;
    le_bytes_hold_the_number(n);
    assert(bytes.take(4) =~= le_bytes(n));
    assert(bytes.subrange(4, 4 + n) =~= contents);
    assert(bytes.skip(4 + n) =~= more);
}

/// A response comes back as it was written, and so does the picture that it
/// carries.
pub proof fn responses_read_back(contents: Seq<u8>, data: Seq<u8>)
    requires
        contents.len() <= MAX_FRAME,
        data.len() < 0x1_0000_0000,
    ensures
        read_frame(response_frames(contents, Some(data)), MAX_FRAME as int) == Ok::<
            Seq<u8>,
            FrameError,
        >(contents),
        read_frame(after_frame(response_frames(contents, Some(data))), 0xffff_ffff) == Ok::<
            Seq<u8>,
            FrameError,
        >(data),
        read_frame(response_frames(contents, None), MAX_FRAME as int) == Ok::<Seq<u8>, FrameError>(
            contents,
        ),
{
    frames_read_back(contents, frame(data), MAX_FRAME as int);
    frames_read_back(data, Seq::empty(), 0xffff_ffff);
    assert(frame(data) + Seq::<u8>::empty() =~= frame(data));
    frames_read_back(contents, Seq::empty(), MAX_FRAME as int);
    assert(frame(contents) + Seq::<u8>::empty() =~= frame(contents));
}

impl IpcResponse {
    /// Whether a picture follows the response.
    pub fn carries_binary(&self) -> (r: bool)
        ensures
            r == (self is Screenshot),
    {
        match self {
            IpcResponse::Screenshot { .. } => true,
            _ => false,
        }
    }
}

/// What a refused request is answered.
pub fn request_error(error: FrameError) -> (s: Option<String>)
    ensures
        match error {
            FrameError::TooLarge => s matches Some(t) && t@ == "request too large"@,
            FrameError::Truncated => s is None,
        },
{
    match error {
        FrameError::TooLarge => Some("request too large".to_owned()),
        FrameError::Truncated => None,
    }
}

/// What a refused response is reported as.
pub fn response_error(error: FrameError) -> (s: Option<String>)
    ensures
        match error {
            FrameError::TooLarge => s matches Some(t) && t@ == "response too large"@,
            FrameError::Truncated => s is None,
        },
{
    match error {
        FrameError::TooLarge => Some("response too large".to_owned()),
        FrameError::Truncated => None,
    }
}

/// How a connection of the control program went.
#[derive(Debug)]
pub enum ConnectionEvent {
    /// The request could not be read, for this reason.
    Unreadable { reason: String },
    /// The compositor is gone.
    Gone,
    /// The compositor gave no answer.
    Unanswered,
    /// The compositor's answer, and the picture that it may carry.
    Answered { response: IpcResponse, binary: Option<Vec<u8>> },
}

/// What is sent back on a connection, if anything.
pub fn handle_connection(event: ConnectionEvent) -> (r: Option<(IpcResponse, Option<Vec<u8>>)>)
    ensures
        match event {
            ConnectionEvent::Unreadable { reason } => r == Some(
                (IpcResponse::Error { message: reason }, None::<Vec<u8>>),
            ),
            ConnectionEvent::Gone => r is None,
            ConnectionEvent::Unanswered => r matches Some((IpcResponse::Error { message }, binary))
                && message@ == "compositor did not respond"@ && binary is None,
            ConnectionEvent::Answered { response, binary } => r == Some((response, binary)),
        },
{
    match event {
        ConnectionEvent::Unreadable { reason } => Some(
            (IpcResponse::Error { message: reason }, None),
        ),
        ConnectionEvent::Gone => None,
        ConnectionEvent::Unanswered => Some(
            (IpcResponse::Error { message: "compositor did not respond".to_owned() }, None),
        ),
        ConnectionEvent::Answered { response, binary } => Some((response, binary)),
    }
}

/// `dirs::runtime_dir`: the user's directory for sockets, if the environment
/// names one. Nothing is claimed of the result, which rests on the environment.
#[verifier::external_body]
fn user_runtime_dir() -> (dir: Option<Vec<u8>>) {
    dirs::runtime_dir().map(|p| p.into_os_string().into_encoded_bytes())
}

/// The path of the socket under the user's directory, or else under the one for
/// temporary files.
pub open spec fn socket_under(runtime: Option<Seq<u8>>, temp: Seq<u8>) -> Seq<u8> {
    joined(
        match runtime {
            Some(dir) => dir,
            None => temp,
        },
        encode_utf8("bakawm.sock"@),
    )
}

/// The path of the socket under the given directories.
pub fn socket_path_under(runtime: &Option<Vec<u8>>, temp: &Vec<u8>) -> (p: Vec<u8>)
    ensures
        p@ == socket_under(path_view(*runtime), temp@),
{
    match runtime {
        Some(dir) => join_path(dir, "bakawm.sock"),
        None => join_path(temp, "bakawm.sock"),
    }
}

/// The path of this user's socket; `temp` is the directory for temporary files.
pub fn socket_path(temp: &Vec<u8>) -> (p: Vec<u8>)
    ensures
        exists|runtime: Option<Seq<u8>>| p@ == socket_under(runtime, temp@),
{
    let runtime = user_runtime_dir();
    socket_path_under(&runtime, temp)
}

/// The length comes first, its lowest byte in front, and then the contents.
pub proof fn frames_are_length_and_contents(contents: Seq<u8>)
    requires
        contents.len() < 0x1_0000_0000,
    ensures
        frame(contents).len() == contents.len() + 4,
        frame(contents)[0] + 256 * frame(contents)[1] + 256 * 256 * frame(contents)[2] + 256 * 256
            * 256 * frame(contents)[3] == contents.len(),
        frame(contents).skip(4) == contents,
{
    le_bytes_hold_the_number(contents.len() as int);
    assert(frame(contents).skip(4) =~= contents);
}

/// What is read of a frame is what follows its length, as much as the length says;
/// a length over the limit and a frame that is cut off are refused.
pub proof fn frames_are_read_by_their_length(bytes: Seq<u8>, limit: int)
    ensures
        bytes.len() < 4 ==> read_frame(bytes, limit) == Err::<Seq<u8>, FrameError>(
            FrameError::Truncated,
        ),
        bytes.len() >= 4 ==> {
            let n = bytes[0] + 256 * bytes[1] + 256 * 256 * bytes[2] + 256 * 256 * 256 * bytes[3];
            &&& n > limit ==> read_frame(bytes, limit) == Err::<Seq<u8>, FrameError>(
                FrameError::TooLarge,
            )
            &&& n <= limit && bytes.len() < 4 + n ==> read_frame(bytes, limit) == Err::<
                Seq<u8>,
                FrameError,
            >(FrameError::Truncated)
            &&& n <= limit && bytes.len() >= 4 + n ==> (read_frame(bytes, limit) matches Ok(c)
                && c.len() == n && forall|i: int| 0 <= i < n ==> c[i] == bytes[4 + i])
            &&& bytes.len() >= 4 + n ==> after_frame(bytes) == bytes.skip(4 + n)
        },
{
}

/// A picture follows the answer in a frame of its own, and without one nothing
/// follows.
pub proof fn pictures_follow_the_answer(contents: Seq<u8>, data: Seq<u8>)
    ensures
        response_frames(contents, None) == frame(contents),
        response_frames(contents, Some(data)).take(frame(contents).len() as int) == frame(contents),
        response_frames(contents, Some(data)).skip(frame(contents).len() as int) == frame(data),
{
    let all = response_frames(contents, Some(data));
    assert(all.take(frame(contents).len() as int) =~= frame(contents));
    assert(all.skip(frame(contents).len() as int) =~= frame(data));
}

/// The socket lies in the runtime directory, and in the one for temporary files
/// where there is none.
pub proof fn the_socket_is_in_the_runtime_directory(runtime: Seq<u8>, temp: Seq<u8>)
    ensures
        socket_under(Some(runtime), temp) == joined(runtime, encode_utf8("bakawm.sock"@)),
        socket_under(None, temp) == joined(temp, encode_utf8("bakawm.sock"@)),
{
}

} // verus!
