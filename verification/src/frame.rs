//! Wire frames: the decoded values of the protocol, and their views.

use vstd::prelude::*;
use vstd::slice::slice_to_vec;
use vstd::std_specs::convert::FromSpecImpl;

verus! {

/// A binary-safe string.
#[derive(Debug)]
pub struct BulkString(pub Vec<u8>);

/// An ordered sequence of frames.
#[derive(Debug)]
pub struct RespArray(pub Vec<RespFrame>);

/// One decoded value of the wire protocol.
#[derive(Debug)]
pub enum RespFrame {
    SimpleString(String),
    Error(String),
    Integer(i64),
    BulkString(BulkString),
    Array(RespArray),
    Null,
    Boolean(bool),
}

/// What a frame is, as a mathematical value.
pub enum FrameView {
    SimpleString(Seq<char>),
    Error(Seq<char>),
    Integer(int),
    BulkString(Seq<u8>),
    Array(Seq<FrameView>),
    Null,
    Boolean(bool),
}

/// The views of a run of frames, in order.
pub open spec fn frames_view(frames: Seq<RespFrame>) -> Seq<FrameView>
    decreases frames,
{
    Seq::new(
        frames.len(),
        |i: int|
            if 0 <= i < frames.len() {
                frames[i].view()
            } else {
                FrameView::Null
            },
    )
}

impl View for BulkString {
    type V = Seq<u8>;

    open spec fn view(&self) -> Seq<u8> {
        self.0@
    }
}

impl View for RespFrame {
    type V = FrameView;

    open spec fn view(&self) -> FrameView
        decreases self,
    {
        match self {
            RespFrame::SimpleString(s) => FrameView::SimpleString(s@),
            RespFrame::Error(s) => FrameView::Error(s@),
            RespFrame::Integer(n) => FrameView::Integer(*n as int),
            RespFrame::BulkString(b) => FrameView::BulkString(b@),
            RespFrame::Array(a) => FrameView::Array(frames_view(a.0@)),
            RespFrame::Null => FrameView::Null,
            RespFrame::Boolean(b) => FrameView::Boolean(*b),
        }
    }
}

impl View for RespArray {
    type V = Seq<FrameView>;

    open spec fn view(&self) -> Seq<FrameView> {
        frames_view(self.0@)
    }
}

/// Whether two runs of frames are the same values in the same order.
pub fn frames_eq(a: &Vec<RespFrame>, b: &Vec<RespFrame>) -> (r: bool)
    ensures
        r == (frames_view(a@) == frames_view(b@)),
    decreases a,
{
    if a.len() != b.len() {
        return false;
    }
    let mut i: usize = 0;
    while i < a.len()
        invariant
            a.len() == b.len(),
            i <= a.len(),
            forall|j: int| 0 <= j < i ==> a[j]@ == b[j]@,
        decreases a.len() - i,
    {
        if !frame_eq(&a[i], &b[i]) {
            assert(frames_view(a@)[i as int] != frames_view(b@)[i as int]);
            return false;
        }
        i += 1;
    }
    assert(frames_view(a@) =~= frames_view(b@));
    true
}

/// Whether two frames are the same value.
pub fn frame_eq(a: &RespFrame, b: &RespFrame) -> (r: bool)
    ensures
        r == (a@ == b@),
    decreases a,
{
    match (a, b) {
        (RespFrame::SimpleString(x), RespFrame::SimpleString(y)) => *x == *y,
        (RespFrame::Error(x), RespFrame::Error(y)) => *x == *y,
        (RespFrame::Integer(x), RespFrame::Integer(y)) => *x == *y,
        (RespFrame::BulkString(x), RespFrame::BulkString(y)) => bytes_eq(&x.0, &y.0),
        (RespFrame::Array(x), RespFrame::Array(y)) => frames_eq(&x.0, &y.0),
        (RespFrame::Null, RespFrame::Null) => true,
        (RespFrame::Boolean(x), RespFrame::Boolean(y)) => *x == *y,
        _ => false,
    }
}

/// Whether two byte strings hold the same bytes.
pub fn bytes_eq(a: &Vec<u8>, b: &Vec<u8>) -> (r: bool)
    ensures
        r == (a@ == b@),
{
    if a.len() != b.len() {
        return false;
    }
    let mut i: usize = 0;
    while i < a.len()
        invariant
            a.len() == b.len(),
            i <= a.len(),
            forall|j: int| 0 <= j < i ==> a[j] == b[j],
        decreases a.len() - i,
    {
        if a[i] != b[i] {
            return false;
        }
        i += 1;
    }
    assert(a@ =~= b@);
    true
}

/// Whether `value` occurs among `frames`.
pub fn contains_frame(frames: &Vec<RespFrame>, value: &RespFrame) -> (r: bool)
    ensures
        r == frames_view(frames@).contains(value@),
{
    let mut i: usize = 0;
    while i < frames.len()
        invariant
            i <= frames.len(),
            forall|j: int| 0 <= j < i ==> frames[j]@ != value@,
        decreases frames.len() - i,
    {
        if frame_eq(&frames[i], value) {
            assert(frames_view(frames@)[i as int] == value@);
            return true;
        }
        i += 1;
    }
    false
}

/// A fresh copy of a run of frames.
pub fn copy_frames(frames: &Vec<RespFrame>) -> (r: Vec<RespFrame>)
    ensures
        frames_view(r@) == frames_view(frames@),
    decreases frames,
{
    let mut out: Vec<RespFrame> = Vec::new();
    let mut i: usize = 0;
    while i < frames.len()
        invariant
            i <= frames.len(),
            out.len() == i,
            forall|j: int| 0 <= j < i ==> out[j]@ == frames[j]@,
        decreases frames.len() - i,
    {
        out.push(copy_frame(&frames[i]));
        i += 1;
    }
    out
}

/// A fresh copy of a frame.
pub fn copy_frame(frame: &RespFrame) -> (r: RespFrame)
    ensures
        r@ == frame@,
    decreases frame,
{
    match frame {
        RespFrame::SimpleString(s) => RespFrame::SimpleString(s.clone()),
        RespFrame::Error(s) => RespFrame::Error(s.clone()),
        RespFrame::Integer(n) => RespFrame::Integer(*n),
        RespFrame::BulkString(b) => RespFrame::BulkString(BulkString(b.0.clone())),
        RespFrame::Array(a) => RespFrame::Array(RespArray(copy_frames(&a.0))),
        RespFrame::Null => RespFrame::Null,
        RespFrame::Boolean(b) => RespFrame::Boolean(*b),
    }
}

impl Clone for BulkString {
    fn clone(&self) -> (r: Self)
        ensures
            r@ == self@,
    {
        BulkString(self.0.clone())
    }
}

impl Clone for RespFrame {
    fn clone(&self) -> (r: Self)
        ensures
            r@ == self@,
    {
        copy_frame(self)
    }
}

impl Clone for RespArray {
    fn clone(&self) -> (r: Self)
        ensures
            r@ == self@,
    {
        RespArray(copy_frames(&self.0))
    }
}

impl PartialEq for BulkString {
    fn eq(&self, other: &Self) -> (r: bool) {
        bytes_eq(&self.0, &other.0)
    }
}

impl vstd::std_specs::cmp::PartialEqSpecImpl for BulkString {
    open spec fn obeys_eq_spec() -> bool {
        true
    }

    open spec fn eq_spec(&self, other: &Self) -> bool {
        self@ == other@
    }
}

impl Eq for BulkString {

}

impl PartialEq for RespFrame {
    fn eq(&self, other: &Self) -> (r: bool) {
        frame_eq(self, other)
    }
}

impl vstd::std_specs::cmp::PartialEqSpecImpl for RespFrame {
    open spec fn obeys_eq_spec() -> bool {
        true
    }

    open spec fn eq_spec(&self, other: &Self) -> bool {
        self@ == other@
    }
}

impl Eq for RespFrame {

}

impl PartialEq for RespArray {
    fn eq(&self, other: &Self) -> (r: bool) {
        frames_eq(&self.0, &other.0)
    }
}

impl vstd::std_specs::cmp::PartialEqSpecImpl for RespArray {
    open spec fn obeys_eq_spec() -> bool {
        true
    }

    open spec fn eq_spec(&self, other: &Self) -> bool {
        self@ == other@
    }
}

impl Eq for RespArray {

}

impl BulkString {
    /// A bulk string that holds `bytes`.
    pub fn new(bytes: Vec<u8>) -> (r: Self)
        ensures
            r@ == bytes@,
    {
        BulkString(bytes)
    }
}

/// The contract of `from` stands on the function itself and speaks of the
/// view; no result is named over the values themselves.
impl<const N: usize> FromSpecImpl<&[u8; N]> for RespFrame {
    open spec fn obeys_from_spec() -> bool {
        false
    }

    open spec fn from_spec(bytes: &[u8; N]) -> Self {
        arbitrary()
    }
}

impl<const N: usize> From<&[u8; N]> for RespFrame {
    /// The bulk string that holds `bytes`.
    fn from(bytes: &[u8; N]) -> (r: Self)
        ensures
            r@ == FrameView::BulkString(bytes@),
    {
        RespFrame::BulkString(BulkString(slice_to_vec(bytes.as_slice())))
    }
}

impl RespArray {
    /// An array of `frames`.
    pub fn new(frames: Vec<RespFrame>) -> (r: Self)
        ensures
            r@ == frames_view(frames@),
    {
        RespArray(frames)
    }

    /// How many frames the array holds.
    pub fn len(&self) -> (n: usize)
        ensures
            n == self@.len(),
    {
        self.0.len()
    }
}

} // verus!
