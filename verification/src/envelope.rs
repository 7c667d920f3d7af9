//! The plain-value envelope of a frame: the method name, the request
//! identifier and the positional parameters of one JSON-RPC message, with
//! every JSON detail already resolved to values the verifier can reason
//! about. The classifier's contracts are stated over this type alone.

use vstd::prelude::*;

verus! {

/// One entry of a parameter that is itself an array: text, or something
/// the classifier skips.
pub enum ListItem {
    Text(String),
    Other,
}

pub enum ListItemView {
    Text(Seq<char>),
    Other,
}

impl View for ListItem {
    type V = ListItemView;

    open spec fn view(&self) -> ListItemView {
        match self {
            ListItem::Text(s) => ListItemView::Text(s@),
            ListItem::Other => ListItemView::Other,
        }
    }
}

/// One positional parameter. A number keeps both its unsigned value, when
/// it has one, and its textual form, so that a fractional difficulty is
/// carried without a floating-point value in the library.
pub enum ParamValue {
    Text(String),
    Num { uint: Option<u64>, text: String },
    Bool(bool),
    List(Vec<ListItem>),
    Other,
}

pub enum ParamView {
    Text(Seq<char>),
    Num { uint: Option<u64>, text: Seq<char> },
    Bool(bool),
    List(Seq<ListItemView>),
    Other,
}

impl View for ParamValue {
    type V = ParamView;

    open spec fn view(&self) -> ParamView {
        match self {
            ParamValue::Text(s) => ParamView::Text(s@),
            ParamValue::Num { uint, text } => ParamView::Num { uint: *uint, text: text@ },
            ParamValue::Bool(b) => ParamView::Bool(*b),
            ParamValue::List(items) => ParamView::List(items@.map_values(|x: ListItem| x@)),
            ParamValue::Other => ParamView::Other,
        }
    }
}

pub open spec fn opt_params_view(p: Option<Vec<ParamValue>>) -> Option<Seq<ParamView>> {
    match p {
        Option::Some(v) => Option::Some(v@.map_values(|x: ParamValue| x@)),
        Option::None => Option::None,
    }
}

/// The structural envelope of one frame: what classification reads.
pub struct Envelope {
    pub method: Option<String>,
    pub id: Option<u64>,
    pub params: Option<Vec<ParamValue>>,
}

pub struct EnvelopeView {
    pub method: Option<Seq<char>>,
    pub id: Option<u64>,
    pub params: Option<Seq<ParamView>>,
}

impl View for Envelope {
    type V = EnvelopeView;

    open spec fn view(&self) -> EnvelopeView {
        EnvelopeView {
            method: match &self.method {
                Option::Some(m) => Option::Some(m@),
                Option::None => Option::None,
            },
            id: self.id,
            params: opt_params_view(self.params),
        }
    }
}

/// The view of an envelope that may be absent: what the trusted decoding
/// of a frame promises to equal `env_of` of the frame's bytes.
pub open spec fn opt_env_view(r: Option<Envelope>) -> Option<EnvelopeView> {
    match r {
        Option::Some(e) => Option::Some(e@),
        Option::None => Option::None,
    }
}

} // verus!
