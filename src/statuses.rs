//! Message shapes of the two wire protocols, and the numeric codes that the
//! game protocol uses for its enumerations.
use vstd::prelude::*;

verus! {

/// Status that the game reports for a command.
#[derive(PartialEq, Eq, Structural, Debug, Clone, Copy)]
pub enum EffectResult {
    Success,
    Failure,
    Unavailable,
    Retry,
    Queue,
    Running,
    Paused,
    Resumed,
    Finished,
    NotReady,
}

/// Kind of a command sent to the game.
#[derive(PartialEq, Eq, Structural, Debug, Clone, Copy)]
pub enum RequestType {
    Test,
    Start,
    Stop,
    Login,
    KeepAlive,
}

/// Kind of a result sent by the game.
#[derive(PartialEq, Eq, Structural, Debug, Clone, Copy)]
pub enum ResponseType {
    EffectRequest,
    Login,
    KeepAlive,
}

/// Wire code of an `EffectResult`: its position in the declaration order.
pub open spec fn effect_result_code(e: EffectResult) -> u8 {
    match e {
        EffectResult::Success => 0,
        EffectResult::Failure => 1,
        EffectResult::Unavailable => 2,
        EffectResult::Retry => 3,
        EffectResult::Queue => 4,
        EffectResult::Running => 5,
        EffectResult::Paused => 6,
        EffectResult::Resumed => 7,
        EffectResult::Finished => 8,
        EffectResult::NotReady => 9,
    }
}

/// Wire code of a `RequestType`.
pub open spec fn request_type_code(t: RequestType) -> u8 {
    match t {
        RequestType::Test => 0,
        RequestType::Start => 1,
        RequestType::Stop => 2,
        RequestType::Login => 0xF0,
        RequestType::KeepAlive => 0xFF,
    }
}

/// Wire code of a `ResponseType`.
pub open spec fn response_type_code(t: ResponseType) -> u8 {
    match t {
        ResponseType::EffectRequest => 0,
        ResponseType::Login => 0xF0,
        ResponseType::KeepAlive => 0xFF,
    }
}

/// The status with wire code `c`, if any.
pub open spec fn effect_result_of(c: u8) -> Option<EffectResult> {
    match c {
        0 => Some(EffectResult::Success),
        1 => Some(EffectResult::Failure),
        2 => Some(EffectResult::Unavailable),
        3 => Some(EffectResult::Retry),
        4 => Some(EffectResult::Queue),
        5 => Some(EffectResult::Running),
        6 => Some(EffectResult::Paused),
        7 => Some(EffectResult::Resumed),
        8 => Some(EffectResult::Finished),
        9 => Some(EffectResult::NotReady),
        _ => None,
    }
}

/// The command kind with wire code `c`, if any.
pub open spec fn request_type_of(c: u8) -> Option<RequestType> {
    match c {
        0 => Some(RequestType::Test),
        1 => Some(RequestType::Start),
        2 => Some(RequestType::Stop),
        0xF0 => Some(RequestType::Login),
        0xFF => Some(RequestType::KeepAlive),
        _ => None,
    }
}

/// The result kind with wire code `c`, if any.
pub open spec fn response_type_of(c: u8) -> Option<ResponseType> {
    match c {
        0 => Some(ResponseType::EffectRequest),
        0xF0 => Some(ResponseType::Login),
        0xFF => Some(ResponseType::KeepAlive),
        _ => None,
    }
}

impl EffectResult {
    pub fn code(self) -> (r: u8)
        ensures
            r == effect_result_code(self),
    {
        match self {
            EffectResult::Success => 0,
            EffectResult::Failure => 1,
            EffectResult::Unavailable => 2,
            EffectResult::Retry => 3,
            EffectResult::Queue => 4,
            EffectResult::Running => 5,
            EffectResult::Paused => 6,
            EffectResult::Resumed => 7,
            EffectResult::Finished => 8,
            EffectResult::NotReady => 9,
        }
    }

    /// The status with wire code `c`, if any.
    pub fn from_code(c: u8) -> (r: Option<EffectResult>)
        ensures
            r == effect_result_of(c),
    {
        match c {
            0 => Some(EffectResult::Success),
            1 => Some(EffectResult::Failure),
            2 => Some(EffectResult::Unavailable),
            3 => Some(EffectResult::Retry),
            4 => Some(EffectResult::Queue),
            5 => Some(EffectResult::Running),
            6 => Some(EffectResult::Paused),
            7 => Some(EffectResult::Resumed),
            8 => Some(EffectResult::Finished),
            9 => Some(EffectResult::NotReady),
            _ => None,
        }
    }
}

impl RequestType {
    pub fn code(self) -> (r: u8)
        ensures
            r == request_type_code(self),
    {
        match self {
            RequestType::Test => 0,
            RequestType::Start => 1,
            RequestType::Stop => 2,
            RequestType::Login => 0xF0,
            RequestType::KeepAlive => 0xFF,
        }
    }

    /// The command kind with wire code `c`, if any.
    pub fn from_code(c: u8) -> (r: Option<RequestType>)
        ensures
            r == request_type_of(c),
    {
        match c {
            0 => Some(RequestType::Test),
            1 => Some(RequestType::Start),
            2 => Some(RequestType::Stop),
            0xF0 => Some(RequestType::Login),
            0xFF => Some(RequestType::KeepAlive),
            _ => None,
        }
    }
}

impl ResponseType {
    pub fn code(self) -> (r: u8)
        ensures
            r == response_type_code(self),
    {
        match self {
            ResponseType::EffectRequest => 0,
            ResponseType::Login => 0xF0,
            ResponseType::KeepAlive => 0xFF,
        }
    }

    /// The result kind with wire code `c`, if any.
    pub fn from_code(c: u8) -> (r: Option<ResponseType>)
        ensures
            r == response_type_of(c),
    {
        match c {
            0 => Some(ResponseType::EffectRequest),
            0xF0 => Some(ResponseType::Login),
            0xFF => Some(ResponseType::KeepAlive),
            _ => None,
        }
    }
}

/// Decoding a status's wire code gives back the status, and a code decodes
/// only to the status that has it.
pub proof fn lemma_effect_result_round_trip(e: EffectResult, c: u8)
    ensures
        effect_result_of(effect_result_code(e)) == Some(e),
        effect_result_of(c) matches Some(d) ==> effect_result_code(d) == c,
{
}

/// Decoding a command kind's wire code gives back the kind, and a code
/// decodes only to the kind that has it.
pub proof fn lemma_request_type_round_trip(t: RequestType, c: u8)
    ensures
        request_type_of(request_type_code(t)) == Some(t),
        request_type_of(c) matches Some(d) ==> request_type_code(d) == c,
{
}

/// Decoding a result kind's wire code gives back the kind, and a code decodes
/// only to the kind that has it.
pub proof fn lemma_response_type_round_trip(t: ResponseType, c: u8)
    ensures
        response_type_of(response_type_code(t)) == Some(t),
        response_type_of(c) matches Some(d) ==> response_type_code(d) == c,
{
}

/// View of an optional text field.
pub open spec fn opt_text(o: Option<String>) -> Option<Seq<char>> {
    match o {
        Some(s) => Some(s@),
        None => None,
    }
}

/// A result reported by the game for a command it was sent.
#[derive(Debug, Clone, PartialEq)]
pub struct Response {
    pub id: u32,
    pub status: EffectResult,
    pub message: Option<String>,
    pub time_remaining: i64,
    pub t: ResponseType,
}

pub struct ResponseView {
    pub id: u32,
    pub status: EffectResult,
    pub message: Option<Seq<char>>,
    pub time_remaining: i64,
    pub t: ResponseType,
}

impl View for Response {
    type V = ResponseView;

    open spec fn view(&self) -> ResponseView {
        ResponseView {
            id: self.id,
            status: self.status,
            message: opt_text(self.message),
            time_remaining: self.time_remaining,
            t: self.t,
        }
    }
}

/// A command as the remote service sends it: whom it targets and what it is.
#[derive(Debug, Clone, PartialEq)]
pub struct FromServer {
    pub player_id: String,
    pub code: String,
}

pub struct FromServerView {
    pub player_id: Seq<char>,
    pub code: Seq<char>,
}

impl View for FromServer {
    type V = FromServerView;

    open spec fn view(&self) -> FromServerView {
        FromServerView { player_id: self.player_id@, code: self.code@ }
    }
}

/// A completion report sent back to the remote service.
#[derive(Debug, Clone, PartialEq)]
pub struct ToServer {
    pub player_id: String,
    pub code: String,
    pub time: i64,
    pub sender: String,
}

pub struct ToServerView {
    pub player_id: Seq<char>,
    pub code: Seq<char>,
    pub time: i64,
    pub sender: Seq<char>,
}

impl View for ToServer {
    type V = ToServerView;

    open spec fn view(&self) -> ToServerView {
        ToServerView {
            player_id: self.player_id@,
            code: self.code@,
            time: self.time,
            sender: self.sender@,
        }
    }
}

/// One target of a command sent to the game.
#[derive(Debug, Clone, PartialEq)]
pub struct Target {
    pub id: String,
    pub name: String,
    pub avatar: String,
}

pub struct TargetView {
    pub id: Seq<char>,
    pub name: Seq<char>,
    pub avatar: Seq<char>,
}

impl View for Target {
    type V = TargetView;

    open spec fn view(&self) -> TargetView {
        TargetView { id: self.id@, name: self.name@, avatar: self.avatar@ }
    }
}

/// A command sent to the game.
#[derive(Debug, Clone, PartialEq)]
pub struct Request {
    pub id: u32,
    pub code: Option<String>,
    pub message: Option<String>,
    pub parameters: Option<Vec<String>>,
    pub targets: Option<Vec<Target>>,
    pub viewer: Option<String>,
    pub cost: Option<u64>,
    pub t: RequestType,
}

pub struct RequestView {
    pub id: u32,
    pub code: Option<Seq<char>>,
    pub message: Option<Seq<char>>,
    pub parameters: Option<Seq<Seq<char>>>,
    pub targets: Option<Seq<TargetView>>,
    pub viewer: Option<Seq<char>>,
    pub cost: Option<u64>,
    pub t: RequestType,
}

impl View for Request {
    type V = RequestView;

    open spec fn view(&self) -> RequestView {
        RequestView {
            id: self.id,
            code: opt_text(self.code),
            message: opt_text(self.message),
            parameters: match self.parameters {
                Some(ps) => Some(ps@.map_values(|p: String| p@)),
                None => None,
            },
            targets: match self.targets {
                Some(ts) => Some(ts@.map_values(|t: Target| t@)),
                None => None,
            },
            viewer: opt_text(self.viewer),
            cost: self.cost,
            t: self.t,
        }
    }
}

} // verus!
