//! Message model and classifier: decodes a frame's envelope into one of a
//! fixed set of typed protocol messages. Field decoding is uniformly
//! tolerant — a missing or type-mismatched field substitutes its
//! documented default and never aborts classification of the remaining
//! fields or of the frame.

use vstd::prelude::*;
use crate::envelope::{Envelope, EnvelopeView, ListItem, ListItemView, ParamValue, ParamView, opt_params_view};
use crate::hexbytes;
use crate::hexbytes::{hex_decoded, spec_hex_u32};
use crate::json;

verus! {

/// Work distributed to the miner: one job notification.
#[derive(Debug, Clone, PartialEq)]
pub struct NotifyData {
    pub job_id: String,
    pub prevhash: String,
    pub coinb1: Vec<u8>,
    pub coinb2: Vec<u8>,
    pub merkle_branch: Vec<String>,
    pub version: u32,
    pub nbits: u32,
    pub ntime: u32,
    pub clean_jobs: bool,
}

pub struct NotifyDataView {
    pub job_id: Seq<char>,
    pub prevhash: Seq<char>,
    pub coinb1: Seq<u8>,
    pub coinb2: Seq<u8>,
    pub merkle_branch: Seq<Seq<char>>,
    pub version: u32,
    pub nbits: u32,
    pub ntime: u32,
    pub clean_jobs: bool,
}

impl View for NotifyData {
    type V = NotifyDataView;

    open spec fn view(&self) -> NotifyDataView {
        NotifyDataView {
            job_id: self.job_id@,
            prevhash: self.prevhash@,
            coinb1: self.coinb1@,
            coinb2: self.coinb2@,
            merkle_branch: self.merkle_branch@.map_values(|s: String| s@),
            version: self.version,
            nbits: self.nbits,
            ntime: self.ntime,
            clean_jobs: self.clean_jobs,
        }
    }
}

/// The typed decode of one frame. The difficulty of `SetDifficulty` is a
/// JSON number that may be fractional; it is carried in its textual form
/// so the relay stays free of floating-point values.
#[derive(Debug, Clone, PartialEq)]
pub enum Message {
    Subscribe { user_agent: String, session_id: String },
    Authorize { worker_name: String, worker_password: String },
    Submit { worker_name: String, job_id: String, extranonce2: Vec<u8>, ntime: u32, nonce: u32 },
    SetDifficulty { value_text: String },
    Notify(NotifyData),
    SetExtranonce { extranonce1: String, extranonce2_size: u64 },
    ExtranonceSubscribeAck { request_id: u64 },
}

pub enum MessageView {
    Subscribe { user_agent: Seq<char>, session_id: Seq<char> },
    Authorize { worker_name: Seq<char>, worker_password: Seq<char> },
    Submit { worker_name: Seq<char>, job_id: Seq<char>, extranonce2: Seq<u8>, ntime: u32, nonce: u32 },
    SetDifficulty { value_text: Seq<char> },
    Notify(NotifyDataView),
    SetExtranonce { extranonce1: Seq<char>, extranonce2_size: u64 },
    ExtranonceSubscribeAck { request_id: u64 },
}

impl View for Message {
    type V = MessageView;

    open spec fn view(&self) -> MessageView {
        match self {
            Message::Subscribe { user_agent, session_id } => MessageView::Subscribe {
                user_agent: user_agent@,
                session_id: session_id@,
            },
            Message::Authorize { worker_name, worker_password } => MessageView::Authorize {
                worker_name: worker_name@,
                worker_password: worker_password@,
            },
            Message::Submit { worker_name, job_id, extranonce2, ntime, nonce } => MessageView::Submit {
                worker_name: worker_name@,
                job_id: job_id@,
                extranonce2: extranonce2@,
                ntime: *ntime,
                nonce: *nonce,
            },
            Message::SetDifficulty { value_text } => MessageView::SetDifficulty { value_text: value_text@ },
            Message::Notify(d) => MessageView::Notify(d@),
            Message::SetExtranonce { extranonce1, extranonce2_size } => MessageView::SetExtranonce {
                extranonce1: extranonce1@,
                extranonce2_size: *extranonce2_size,
            },
            Message::ExtranonceSubscribeAck { request_id } => MessageView::ExtranonceSubscribeAck {
                request_id: *request_id,
            },
        }
    }
}

/// What classification makes of one frame: a typed message, or the frame
/// left unparsed — never a failure.
#[derive(Debug, Clone, PartialEq)]
pub enum Classification {
    Decoded(Message),
    Unparsed { method: Option<String> },
}

pub enum ClassificationView {
    Decoded(MessageView),
    Unparsed { method: Option<Seq<char>> },
}

impl View for Classification {
    type V = ClassificationView;

    open spec fn view(&self) -> ClassificationView {
        match self {
            Classification::Decoded(m) => ClassificationView::Decoded(m@),
            Classification::Unparsed { method } => ClassificationView::Unparsed {
                method: match method {
                    Option::Some(m) => Option::Some(m@),
                    Option::None => Option::None,
                },
            },
        }
    }
}

// ---- the documented per-field defaulting policy, as spec functions ----

pub open spec fn param_at(ps: Option<Seq<ParamView>>, i: int) -> Option<ParamView> {
    match ps {
        Option::Some(s) => if 0 <= i < s.len() {
            Option::Some(s[i])
        } else {
            Option::None
        },
        Option::None => Option::None,
    }
}

/// A text field: its contents, or empty when missing or not text.
pub open spec fn text_at(ps: Option<Seq<ParamView>>, i: int) -> Seq<char> {
    match param_at(ps, i) {
        Option::Some(ParamView::Text(s)) => s,
        _ => Seq::<char>::empty(),
    }
}

/// An integer field: its unsigned value, or zero when missing, not a
/// number, or not an unsigned integer that fits 64 bits.
pub open spec fn uint_at(ps: Option<Seq<ParamView>>, i: int) -> u64 {
    match param_at(ps, i) {
        Option::Some(ParamView::Num { uint: Option::Some(u), .. }) => u,
        _ => 0,
    }
}

/// An integer field narrowed to 32 bits, keeping the low bits of an
/// oversized value as the wire tolerates.
pub open spec fn uint32_at(ps: Option<Seq<ParamView>>, i: int) -> u32 {
    (uint_at(ps, i) % 0x1_0000_0000) as u32
}

/// A boolean field: its value, or false.
pub open spec fn bool_at(ps: Option<Seq<ParamView>>, i: int) -> bool {
    match param_at(ps, i) {
        Option::Some(ParamView::Bool(b)) => b,
        _ => false,
    }
}

/// A hex-text byte field: the decoded bytes, or empty when missing, not
/// text, or not decodable hex.
pub open spec fn hex_bytes_at(ps: Option<Seq<ParamView>>, i: int) -> Seq<u8> {
    match param_at(ps, i) {
        Option::Some(ParamView::Text(s)) => match hex_decoded(s) {
            Option::Some(b) => b,
            Option::None => Seq::<u8>::empty(),
        },
        _ => Seq::<u8>::empty(),
    }
}

/// A hex-text 32-bit field: the parsed value, or zero.
pub open spec fn hex_u32_at(ps: Option<Seq<ParamView>>, i: int) -> u32 {
    match param_at(ps, i) {
        Option::Some(ParamView::Text(s)) => match spec_hex_u32(s) {
            Option::Some(v) => v,
            Option::None => 0,
        },
        _ => 0,
    }
}

/// The text entries of an array of entries, in order, non-text entries
/// skipped.
pub open spec fn texts_of(items: Seq<ListItemView>) -> Seq<Seq<char>>
    decreases items.len(),
{
    if items.len() == 0 {
        Seq::<Seq<char>>::empty()
    } else {
        texts_of(items.drop_last()) + (match items.last() {
            ListItemView::Text(s) => seq![s],
            ListItemView::Other => Seq::<Seq<char>>::empty(),
        })
    }
}

/// An array-of-text field: its text entries, or empty when missing or not
/// an array.
pub open spec fn texts_at(ps: Option<Seq<ParamView>>, i: int) -> Seq<Seq<char>> {
    match param_at(ps, i) {
        Option::Some(ParamView::List(items)) => texts_of(items),
        _ => Seq::<Seq<char>>::empty(),
    }
}

/// A numeric field carried as text: the number's textual form, or "0"
/// when missing or not a number.
pub open spec fn num_text_at(ps: Option<Seq<ParamView>>, i: int) -> Seq<char> {
    match param_at(ps, i) {
        Option::Some(ParamView::Num { text, .. }) => text,
        _ => "0"@,
    }
}

// ---- the classifier, as one spec function ----

pub open spec fn spec_decode_subscribe(ps: Option<Seq<ParamView>>) -> MessageView {
    MessageView::Subscribe { user_agent: text_at(ps, 0), session_id: text_at(ps, 1) }
}

pub open spec fn spec_decode_authorize(ps: Option<Seq<ParamView>>) -> MessageView {
    MessageView::Authorize { worker_name: text_at(ps, 0), worker_password: text_at(ps, 1) }
}

pub open spec fn spec_decode_submit(ps: Option<Seq<ParamView>>) -> MessageView {
    MessageView::Submit {
        worker_name: text_at(ps, 0),
        job_id: text_at(ps, 1),
        extranonce2: hex_bytes_at(ps, 2),
        ntime: hex_u32_at(ps, 3),
        nonce: hex_u32_at(ps, 4),
    }
}

pub open spec fn spec_decode_set_difficulty(ps: Option<Seq<ParamView>>) -> MessageView {
    MessageView::SetDifficulty { value_text: num_text_at(ps, 0) }
}

pub open spec fn spec_decode_notify(ps: Option<Seq<ParamView>>) -> MessageView {
    MessageView::Notify(NotifyDataView {
        job_id: text_at(ps, 0),
        prevhash: text_at(ps, 1),
        coinb1: hex_bytes_at(ps, 2),
        coinb2: hex_bytes_at(ps, 3),
        merkle_branch: texts_at(ps, 4),
        version: uint32_at(ps, 5),
        nbits: uint32_at(ps, 6),
        ntime: uint32_at(ps, 7),
        clean_jobs: bool_at(ps, 8),
    })
}

pub open spec fn spec_decode_set_extranonce(ps: Option<Seq<ParamView>>) -> MessageView {
    MessageView::SetExtranonce { extranonce1: text_at(ps, 0), extranonce2_size: uint_at(ps, 1) }
}

/// Exactly these method names are recognized; every other envelope is left
/// unparsed, carrying its method name when it has one. The
/// extranonce-subscribe acknowledgment is the one message also keyed by
/// the request identifier: without one it stays unparsed.
pub open spec fn spec_classify(env: EnvelopeView) -> ClassificationView {
    match env.method {
        Option::None => ClassificationView::Unparsed { method: Option::None },
        Option::Some(m) => if m == "mining.subscribe"@ {
            ClassificationView::Decoded(spec_decode_subscribe(env.params))
        } else if m == "mining.authorize"@ {
            ClassificationView::Decoded(spec_decode_authorize(env.params))
        } else if m == "mining.submit"@ {
            ClassificationView::Decoded(spec_decode_submit(env.params))
        } else if m == "mining.set_difficulty"@ {
            ClassificationView::Decoded(spec_decode_set_difficulty(env.params))
        } else if m == "mining.notify"@ {
            ClassificationView::Decoded(spec_decode_notify(env.params))
        } else if m == "mining.set_extranonce"@ {
            ClassificationView::Decoded(spec_decode_set_extranonce(env.params))
        } else if m == "mining.extranonce.subscribe"@ {
            match env.id {
                Option::Some(id) => ClassificationView::Decoded(MessageView::ExtranonceSubscribeAck { request_id: id }),
                Option::None => ClassificationView::Unparsed { method: Option::Some(m) },
            }
        } else {
            ClassificationView::Unparsed { method: Option::Some(m) }
        },
    }
}

// ---- verified field accessors ----

fn get_param<'a>(params: &'a Option<Vec<ParamValue>>, i: usize) -> (r: Option<&'a ParamValue>)
    ensures
        match r {
            Option::Some(p) => param_at(opt_params_view(*params), i as int) == Option::Some(p@),
            Option::None => param_at(opt_params_view(*params), i as int) is None,
        },
{
    match params {
        Option::Some(ps) => if i < ps.len() {
            Some(&ps[i])
        } else {
            None
        },
        Option::None => None,
    }
}

fn text_param(params: &Option<Vec<ParamValue>>, i: usize) -> (r: String)
    ensures
        r@ == text_at(opt_params_view(*params), i as int),
{
    match get_param(params, i) {
        Some(p) => match p {
            ParamValue::Text(s) => s.clone(),
            _ => String::new(),
        },
        None => String::new(),
    }
}

fn uint_param(params: &Option<Vec<ParamValue>>, i: usize) -> (r: u64)
    ensures
        r == uint_at(opt_params_view(*params), i as int),
{
    match get_param(params, i) {
        Some(p) => match p {
            ParamValue::Num { uint: Some(u), text: _ } => *u,
            _ => 0,
        },
        None => 0,
    }
}

fn uint32_param(params: &Option<Vec<ParamValue>>, i: usize) -> (r: u32)
    ensures
        r == uint32_at(opt_params_view(*params), i as int),
{
    let u = uint_param(params, i);
    (u % 0x1_0000_0000) as u32
}

fn bool_param(params: &Option<Vec<ParamValue>>, i: usize) -> (r: bool)
    ensures
        r == bool_at(opt_params_view(*params), i as int),
{
    match get_param(params, i) {
        Some(p) => match p {
            ParamValue::Bool(b) => *b,
            _ => false,
        },
        None => false,
    }
}

fn hex_bytes_param(params: &Option<Vec<ParamValue>>, i: usize) -> (r: Vec<u8>)
    ensures
        r@ == hex_bytes_at(opt_params_view(*params), i as int),
{
    match get_param(params, i) {
        Some(p) => match p {
            ParamValue::Text(s) => match hexbytes::decode_hex(s.as_str()) {
                Some(v) => v,
                None => Vec::new(),
            },
            _ => Vec::new(),
        },
        None => Vec::new(),
    }
}

fn hex_u32_param(params: &Option<Vec<ParamValue>>, i: usize) -> (r: u32)
    ensures
        r == hex_u32_at(opt_params_view(*params), i as int),
{
    match get_param(params, i) {
        Some(p) => match p {
            ParamValue::Text(s) => match hexbytes::parse_hex_u32(s.as_str()) {
                Some(v) => v,
                None => 0,
            },
            _ => 0,
        },
        None => 0,
    }
}

fn num_text_param(params: &Option<Vec<ParamValue>>, i: usize) -> (r: String)
    ensures
        r@ == num_text_at(opt_params_view(*params), i as int),
{
    match get_param(params, i) {
        Some(p) => match p {
            ParamValue::Num { uint: _, text } => text.clone(),
            _ => "0".to_owned(),
        },
        None => "0".to_owned(),
    }
}

fn texts_param(params: &Option<Vec<ParamValue>>, i: usize) -> (r: Vec<String>)
    ensures
        r@.map_values(|s: String| s@) == texts_at(opt_params_view(*params), i as int),
{
    match get_param(params, i) {
        Some(p) => match p {
            ParamValue::List(items) => {
                let ghost iv = items@.map_values(|x: ListItem| x@);
                let mut out: Vec<String> = Vec::new();
                let mut j: usize = 0;
                while j < items.len()
                    invariant
                        j <= items@.len(),
                        iv == items@.map_values(|x: ListItem| x@),
                        out@.map_values(|s: String| s@) == texts_of(iv.subrange(0, j as int)),
                    decreases items@.len() - j,
                {
                    proof {
                        assert(iv.subrange(0, j + 1).drop_last() =~= iv.subrange(0, j as int));
                        assert(iv.subrange(0, j + 1).last() == iv[j as int]);
                        assert(iv[j as int] == items@[j as int]@);
                    }
                    match &items[j] {
                        ListItem::Text(s) => {
                            let c = s.clone();
                            out.push(c);
                            proof {
                                assert(out@.map_values(|s: String| s@) =~= texts_of(iv.subrange(0, j + 1)));
                            }
                        },
                        ListItem::Other => {
                            proof {
                                assert(out@.map_values(|s: String| s@) =~= texts_of(iv.subrange(0, j + 1)));
                            }
                        },
                    }
                    j += 1;
                }
                proof {
                    assert(iv.subrange(0, items@.len() as int) =~= iv);
                }
                out
            },
            _ => Vec::new(),
        },
        None => Vec::new(),
    }
}

// ---- verified per-variant decoders ----

pub fn decode_subscribe(params: &Option<Vec<ParamValue>>) -> (m: Message)
    ensures
        m@ == spec_decode_subscribe(opt_params_view(*params)),
{
    Message::Subscribe { user_agent: text_param(params, 0), session_id: text_param(params, 1) }
}

pub fn decode_authorize(params: &Option<Vec<ParamValue>>) -> (m: Message)
    ensures
        m@ == spec_decode_authorize(opt_params_view(*params)),
{
    Message::Authorize { worker_name: text_param(params, 0), worker_password: text_param(params, 1) }
}

pub fn decode_submit(params: &Option<Vec<ParamValue>>) -> (m: Message)
    ensures
        m@ == spec_decode_submit(opt_params_view(*params)),
{
    Message::Submit {
        worker_name: text_param(params, 0),
        job_id: text_param(params, 1),
        extranonce2: hex_bytes_param(params, 2),
        ntime: hex_u32_param(params, 3),
        nonce: hex_u32_param(params, 4),
    }
}

pub fn decode_set_difficulty(params: &Option<Vec<ParamValue>>) -> (m: Message)
    ensures
        m@ == spec_decode_set_difficulty(opt_params_view(*params)),
{
    Message::SetDifficulty { value_text: num_text_param(params, 0) }
}

pub fn decode_notify(params: &Option<Vec<ParamValue>>) -> (m: Message)
    ensures
        m@ == spec_decode_notify(opt_params_view(*params)),
{
    Message::Notify(NotifyData {
        job_id: text_param(params, 0),
        prevhash: text_param(params, 1),
        coinb1: hex_bytes_param(params, 2),
        coinb2: hex_bytes_param(params, 3),
        merkle_branch: texts_param(params, 4),
        version: uint32_param(params, 5),
        nbits: uint32_param(params, 6),
        ntime: uint32_param(params, 7),
        clean_jobs: bool_param(params, 8),
    })
}

pub fn decode_set_extranonce(params: &Option<Vec<ParamValue>>) -> (m: Message)
    ensures
        m@ == spec_decode_set_extranonce(opt_params_view(*params)),
{
    Message::SetExtranonce { extranonce1: text_param(params, 0), extranonce2_size: uint_param(params, 1) }
}

fn str_eq(a: &String, b: &str) -> (r: bool)
    ensures
        r == (a@ == b@),
{
    let bs: String = b.to_owned();
    *a == bs
}

/// Classifies an envelope: the whole decoding policy, verified against
/// `spec_classify`.
pub fn classify_envelope(env: &Envelope) -> (c: Classification)
    ensures
        c@ == spec_classify(env@),
{
    match &env.method {
        Some(m) => {
            if str_eq(m, "mining.subscribe") {
                Classification::Decoded(decode_subscribe(&env.params))
            } else if str_eq(m, "mining.authorize") {
                Classification::Decoded(decode_authorize(&env.params))
            } else if str_eq(m, "mining.submit") {
                Classification::Decoded(decode_submit(&env.params))
            } else if str_eq(m, "mining.set_difficulty") {
                Classification::Decoded(decode_set_difficulty(&env.params))
            } else if str_eq(m, "mining.notify") {
                Classification::Decoded(decode_notify(&env.params))
            } else if str_eq(m, "mining.set_extranonce") {
                Classification::Decoded(decode_set_extranonce(&env.params))
            } else if str_eq(m, "mining.extranonce.subscribe") {
                match env.id {
                    Some(id) => Classification::Decoded(Message::ExtranonceSubscribeAck { request_id: id }),
                    None => Classification::Unparsed { method: Some(m.clone()) },
                }
            } else {
                Classification::Unparsed { method: Some(m.clone()) }
            }
        },
        None => Classification::Unparsed { method: None },
    }
}

/// What classification makes of a byte sequence: the classifier applied
/// to the bytes' envelope, and `Unparsed` without a method name when the
/// bytes are not one valid JSON text. A function of the bytes alone, so
/// equal frames — however they were delivered — classify alike.
pub open spec fn spec_classify_bytes(b: Seq<u8>) -> ClassificationView {
    match json::env_of(b) {
        Option::Some(e) => spec_classify(e),
        Option::None => ClassificationView::Unparsed { method: Option::None },
    }
}

/// Classifies one frame: exactly `spec_classify_bytes` of its bytes. The
/// decoding of the bytes into an envelope is settled by serde_json behind
/// the trusted `extract_envelope`; everything from the envelope on is
/// `classify_envelope`, proved exact.
pub fn classify(frame: &[u8]) -> (c: Classification)
    ensures
        c@ == spec_classify_bytes(frame@),
{
    match json::extract_envelope(frame) {
        Some(env) => classify_envelope(&env),
        None => Classification::Unparsed { method: None },
    }
}

/// Unknown-method tolerance: an envelope whose method name is outside the
/// recognized set classifies to `Unparsed` carrying that name — never a
/// failure, whatever the rest of the envelope holds.
pub proof fn lemma_unknown_method_unparsed(env: EnvelopeView, m: Seq<char>)
    requires
        env.method == Option::Some(m),
        m != "mining.subscribe"@,
        m != "mining.authorize"@,
        m != "mining.submit"@,
        m != "mining.set_difficulty"@,
        m != "mining.notify"@,
        m != "mining.set_extranonce"@,
        m != "mining.extranonce.subscribe"@,
    ensures
        spec_classify(env) == (ClassificationView::Unparsed { method: Option::Some(m) }),
{
}

} // verus!
