use vstd::prelude::*;
use crate::model::{Error, ErrorView, Jenkins};
use crate::digits::{spec_dec, u16_to_dec};
use crate::{is_success_status, spec_is_success};

verus! {

/// The `application/x-www-form-urlencoded` byte-serialization of one
/// component (a parameter name or a parameter value): a function of the
/// component's text alone.
pub uninterp spec fn enc_component(s: Seq<char>) -> Seq<char>;

/// Relies on form_urlencoded::byte_serialize, the
/// `application/x-www-form-urlencoded` byte serializer, applied to the
/// component's UTF-8 bytes; its output depends on those bytes alone.
#[verifier::external_body]
fn encode_component(s: &str) -> (r: String)
    ensures
        r@ == enc_component(s@),
{
    form_urlencoded::byte_serialize(s.as_bytes()).collect()
}

/// One `name=value` form field, each side byte-serialized.
pub open spec fn spec_form_field(p: (Seq<char>, Seq<char>)) -> Seq<char> {
    enc_component(p.0) + "="@ + enc_component(p.1)
}

/// The form-encoded request body for a sequence of parameters: one form
/// field per parameter, in order, joined by `&`.
pub open spec fn spec_form_encoded(pairs: Seq<(Seq<char>, Seq<char>)>) -> Seq<char>
    decreases pairs.len(),
{
    if pairs.len() == 0 {
        Seq::empty()
    } else if pairs.len() == 1 {
        spec_form_field(pairs[0])
    } else {
        spec_form_field(pairs[0]) + "&"@ + spec_form_encoded(pairs.skip(1))
    }
}

fn encode_from(params: &Vec<(String, String)>, i: usize) -> (r: String)
    requires
        i <= params.len(),
    ensures
        r@ == spec_form_encoded(params.deep_view().skip(i as int)),
    decreases params.len() - i,
{
    if i == params.len() {
        proof {
            assert(params.deep_view().skip(i as int) =~= Seq::<(Seq<char>, Seq<char>)>::empty());
        }
        String::new()
    } else {
        proof {
            let dv = params.deep_view();
            assert(dv.skip(i as int)[0] == dv[i as int]);
            assert(dv.skip(i as int).skip(1) =~= dv.skip(i as int + 1));
        }
        let mut s = encode_component(params[i].0.as_str());
        s.append("=");
        let v = encode_component(params[i].1.as_str());
        s.append(v.as_str());
        if i + 1 < params.len() {
            s.append("&");
            let rest = encode_from(params, i + 1);
            s.append(rest.as_str());
        }
        s
    }
}

/// Form-encode the parameters, exactly as `spec_form_encoded` describes.
pub fn encode_parameters(params: &Vec<(String, String)>) -> (r: String)
    ensures
        r@ == spec_form_encoded(params.deep_view()),
{
    proof {
        assert(params.deep_view().skip(0) =~= params.deep_view());
    }
    encode_from(params, 0)
}

/// Whether `field` stands contiguously in `body` at offset `off`.
pub open spec fn field_at(body: Seq<char>, field: Seq<char>, off: int) -> bool {
    &&& 0 <= off
    &&& off + field.len() <= body.len()
    &&& body.subrange(off, off + field.len() as int) == field
}

/// Every parameter is present in the encoded body as its own
/// `name=value` form field, at some offset — whatever order the
/// parameters were given in.
pub proof fn lemma_every_parameter_in_body(pairs: Seq<(Seq<char>, Seq<char>)>, i: int)
    requires
        0 <= i < pairs.len(),
    ensures
        exists|off: int|
            #[trigger] field_at(spec_form_encoded(pairs), spec_form_field(pairs[i]), off),
    decreases i,
{
    let body = spec_form_encoded(pairs);
    let field = spec_form_field(pairs[i]);
    let flen = field.len() as int;
    if i == 0 {
        assert(body.subrange(0, flen) =~= field);
        assert(field_at(body, field, 0));
    } else {
        reveal_strlit("&");
        let rest = pairs.skip(1);
        let restbody = spec_form_encoded(rest);
        assert(rest[i - 1] == pairs[i]);
        lemma_every_parameter_in_body(rest, i - 1);
        let off0 = choose|off: int| #[trigger] field_at(restbody, field, off);
        let head = spec_form_field(pairs[0]) + "&"@;
        assert(body == head + restbody);
        let off = head.len() + off0;
        assert(body.subrange(off, off + flen) =~= restbody.subrange(off0, off0 + flen));
        assert(field_at(body, field, off));
    }
}

/// The endpoint that triggers a parameterized build of `job`.
pub open spec fn spec_trigger_url(base: Seq<char>, job: Seq<char>) -> Seq<char> {
    base + "/job/"@ + job + "/buildWithParameters"@
}

/// Build the "build with parameters" endpoint URL for `job` under `base`.
pub fn trigger_url(base: &str, job: &str) -> (r: String)
    ensures
        r@ == spec_trigger_url(base@, job@),
{
    let mut s = base.to_owned();
    s.append("/job/");
    s.append(job);
    s.append("/buildWithParameters");
    s
}

/// The one outbound POST that a trigger performs: its target URL and its
/// form-encoded body.  The transport adds only the method, the basic auth
/// header and the form content type.
pub struct TriggerRequest {
    pub url: String,
    pub body: String,
}

/// Mathematical image of a `TriggerRequest`.
pub struct TriggerRequestView {
    pub url: Seq<char>,
    pub body: Seq<char>,
}

impl View for TriggerRequest {
    type V = TriggerRequestView;

    open spec fn view(&self) -> TriggerRequestView {
        TriggerRequestView { url: self.url@, body: self.body@ }
    }
}

impl Jenkins {
    /// The single POST request that triggers a parameterized build of
    /// `job`: the job's trigger endpoint under this client's base URL,
    /// with `params` form-encoded as the body.
    pub fn trigger_request(&self, job: &str, params: &Vec<(String, String)>) -> (r: TriggerRequest)
        ensures
            r@.url == spec_trigger_url(self@.url, job@),
            r@.body == spec_form_encoded(params.deep_view()),
    {
        TriggerRequest { url: trigger_url(self.get_url(), job), body: encode_parameters(params) }
    }
}

/// What the transport reports back for the trigger POST: either a
/// transport failure with its description, or the response's status code
/// together with its `Location` header, if one was present.
pub enum TriggerEvent {
    TransportError(String),
    Response { status: u16, location: Option<String> },
}

/// Mathematical image of a `TriggerEvent`.
pub enum TriggerEventView {
    TransportError(Seq<char>),
    Response { status: u16, location: Option<Seq<char>> },
}

impl View for TriggerEvent {
    type V = TriggerEventView;

    open spec fn view(&self) -> TriggerEventView {
        match self {
            TriggerEvent::TransportError(m) => TriggerEventView::TransportError(m@),
            TriggerEvent::Response { status, location } => TriggerEventView::Response {
                status: *status,
                location: match location {
                    Some(l) => Some(l@),
                    None => None,
                },
            },
        }
    }
}

/// The trigger protocol's verdict on a transport report: a 2xx response
/// with a `Location` header yields that header's value, unmodified, as the
/// queue item URL; a 2xx response without one is an API contract error; a
/// non-2xx response is an API error carrying the numeric status; a
/// transport failure is a network error.
pub open spec fn spec_trigger_step(ev: TriggerEventView) -> Result<Seq<char>, ErrorView> {
    match ev {
        TriggerEventView::TransportError(m) => Err(ErrorView::NetworkError(m)),
        TriggerEventView::Response { status, location } => if spec_is_success(status) {
            match location {
                Some(loc) => Ok(loc),
                None => Err(ErrorView::APIError("location header not available"@)),
            }
        } else {
            Err(ErrorView::APIError("http status: "@ + spec_dec(status as int)))
        },
    }
}

/// Whether the exec result `r` denotes the abstract result `s`.
pub open spec fn trigger_result_matches(r: Result<String, Error>, s: Result<Seq<char>, ErrorView>) -> bool {
    match r {
        Ok(loc) => s matches Ok(sl) && sl == loc@,
        Err(e) => s matches Err(se) && se == e@,
    }
}

/// Classify the transport's report of the trigger POST, exactly as
/// `spec_trigger_step` describes.
pub fn trigger_step(ev: TriggerEvent) -> (r: Result<String, Error>)
    ensures
        trigger_result_matches(r, spec_trigger_step(ev@)),
{
    match ev {
        TriggerEvent::TransportError(m) => Err(Error::NetworkError(m)),
        TriggerEvent::Response { status, location } => {
            if is_success_status(status) {
                match location {
                    Some(loc) => Ok(loc),
                    None => Err(Error::APIError("location header not available".to_owned())),
                }
            } else {
                let mut msg = "http status: ".to_owned();
                let d = u16_to_dec(status);
                msg.append(d.as_str());
                Err(Error::APIError(msg))
            }
        },
    }
}

} // verus!
