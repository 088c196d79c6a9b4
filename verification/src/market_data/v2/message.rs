//! What the two feeds have in common: a message decodes from one element of
//! a frame, and plays a part in the handshake.
use crate::json::{parse_value, parsed_json, value_model, JsonModel};
use crate::market_data::v2::decode::{DecodeError, DecodeFault};
use vstd::prelude::*;

verus! {

/// The refusal that an error message carries.
#[derive(Debug, Clone, PartialEq, Eq)]
pub struct Rejection {
    /// The numeric code of the refusal.
    pub code: Option<i64>,
    /// What went wrong, in words.
    pub msg: Option<String>,
}

/// The mathematical content of a [`Rejection`].
pub ghost struct RejectionView {
    pub code: Option<i64>,
    pub msg: Option<Seq<char>>,
}

impl View for Rejection {
    type V = RejectionView;

    open spec fn view(&self) -> RejectionView {
        RejectionView { code: self.code, msg: self.msg.deep_view() }
    }
}

/// The part a message plays while a connection is being authenticated.
#[derive(Debug, Clone, PartialEq, Eq)]
pub enum Role {
    /// The service greets a new connection.
    Connected,
    /// The service accepts the credentials.
    Authenticated,
    /// The service refuses.
    Rejected(Rejection),
    /// Anything else: data, or a control message of another kind.
    Data,
}

/// The mathematical content of a [`Role`].
pub ghost enum RoleView {
    Connected,
    Authenticated,
    Rejected(RejectionView),
    Data,
}

impl View for Role {
    type V = RoleView;

    open spec fn view(&self) -> RoleView {
        match self {
            Role::Connected => RoleView::Connected,
            Role::Authenticated => RoleView::Authenticated,
            Role::Rejected(r) => RoleView::Rejected(r@),
            Role::Data => RoleView::Data,
        }
    }
}

/// A message of a feed.
pub trait WireMessage: View + Sized {
    /// Why a tree is no message of this feed; `None` where it is one.
    spec fn fault(m: JsonModel) -> Option<DecodeFault>;

    /// The message that a tree decodes to.
    spec fn parsed(m: JsonModel) -> Self::V;

    /// The part that a message plays in the handshake.
    spec fn role_of(x: Self::V) -> RoleView;

    /// Decodes one element of a frame.
    fn decode(v: &serde_json::Value) -> (r: Result<Self, DecodeError>)
        ensures
            match r {
                Ok(x) => Self::fault(value_model(*v)) is None && x@ == Self::parsed(
                    value_model(*v),
                ),
                Err(e) => Self::fault(value_model(*v)) == Some(e@),
            },
    ;

    /// The part that this message plays in the handshake.
    fn role(&self) -> (r: Role)
        ensures
            r@ == Self::role_of(self@),
    ;
}

/// What one element of a frame decodes to: the message, or the reason why it
/// is none. It depends on that element alone.
pub open spec fn decoded<M: WireMessage>(m: JsonModel) -> Result<M::V, DecodeFault> {
    match M::fault(m) {
        Some(f) => Err(f),
        None => Ok(M::parsed(m)),
    }
}

/// The mathematical content of one decoded element.
pub open spec fn item_view<M: WireMessage>(item: Result<M, DecodeError>) -> Result<
    M::V,
    DecodeFault,
> {
    match item {
        Ok(x) => Ok(x@),
        Err(e) => Err(e@),
    }
}

/// The mathematical content of a list of decoded elements.
pub open spec fn item_views<M: WireMessage>(items: Seq<Result<M, DecodeError>>) -> Seq<
    Result<M::V, DecodeFault>,
> {
    Seq::new(items.len(), |i: int| item_view(items[i]))
}

/// What the elements of an array decode to, one result for each, in order.
pub open spec fn decoded_all<M: WireMessage>(a: Seq<JsonModel>) -> Seq<Result<M::V, DecodeFault>> {
    Seq::new(a.len(), |i: int| decoded::<M>(a[i]))
}

/// What a document decodes to. An array gives one result for each element;
/// anything else gives the single error `NotAnArray`.
pub open spec fn document_items<M: WireMessage>(m: JsonModel) -> Seq<Result<M::V, DecodeFault>> {
    match m {
        JsonModel::Array(a) => decoded_all::<M>(a),
        _ => seq![Err(DecodeFault::NotAnArray)],
    }
}

/// What a frame decodes to, given what the parser made of its text. A text
/// that is no JSON gives the single error `InvalidJson`.
pub open spec fn frame_items<M: WireMessage>(parsed: Option<JsonModel>) -> Seq<
    Result<M::V, DecodeFault>,
> {
    match parsed {
        None => seq![Err(DecodeFault::InvalidJson)],
        Some(m) => document_items::<M>(m),
    }
}

/// An array decodes to one result for each element, in order, and the result
/// at a place depends on the element at that place alone. A malformed element
/// therefore costs its own message and no other.
pub proof fn lemma_batch_isolation<M: WireMessage>(a: Seq<JsonModel>, b: Seq<JsonModel>, i: int)
    requires
        0 <= i < a.len(),
        0 <= i < b.len(),
        a[i] == b[i],
    ensures
        document_items::<M>(JsonModel::Array(a)).len() == a.len(),
        document_items::<M>(JsonModel::Array(a))[i] == decoded::<M>(a[i]),
        document_items::<M>(JsonModel::Array(a))[i] == document_items::<M>(JsonModel::Array(b))[i],
        M::fault(a[i]) is None ==> document_items::<M>(JsonModel::Array(a))[i] == Ok::<
            M::V,
            DecodeFault,
        >(M::parsed(a[i])),
{
}

/// Decodes a parsed frame, element by element. An element that does not
/// decode yields its own error and leaves the others as they are.
pub fn decode_document<M: WireMessage>(doc: &serde_json::Value) -> (r: Vec<Result<M, DecodeError>>)
    ensures
        item_views(r@) == document_items::<M>(value_model(*doc)),
{
    match doc.as_array() {
        None => {
            let mut out: Vec<Result<M, DecodeError>> = Vec::new();
            out.push(Err(DecodeError::NotAnArray));
            assert(item_views(out@) =~= document_items::<M>(value_model(*doc)));
            out
        },
        Some(items) => {
            let ghost a = value_model(*doc)->Array_0;
            let mut out: Vec<Result<M, DecodeError>> = Vec::new();
            let mut i: usize = 0;
            while i < items.len()
                invariant
                    i <= items.len(),
                    crate::json::models_of(items@) == a,
                    out.len() == i,
                    forall|j: int| 0 <= j < i ==> item_view(#[trigger] out@[j]) == decoded::<M>(a[j]),
                decreases items.len() - i,
            {
                assert(value_model(items@[i as int]) == a[i as int]);
                let item = M::decode(&items[i]);
                out.push(item);
                i += 1;
            }
            assert(item_views(out@) =~= decoded_all::<M>(a));
            out
        },
    }
}

/// Decodes one text frame. Nothing is dropped: a frame that is no JSON, or
/// no array, yields one error; an array yields one result for each element.
pub fn decode_frame<M: WireMessage>(text: &str) -> (r: Vec<Result<M, DecodeError>>)
    ensures
        item_views(r@) == frame_items::<M>(parsed_json(text@)),
{
    match parse_value(text) {
        Ok(doc) => decode_document(&doc),
        Err(_) => {
            let mut out: Vec<Result<M, DecodeError>> = Vec::new();
            out.push(Err(DecodeError::InvalidJson));
            assert(item_views(out@) =~= frame_items::<M>(parsed_json(text@)));
            out
        },
    }
}

} // verus!
