//! The ways in which talking to a bridge can fail.
use vstd::prelude::*;

verus! {

/// Represents any of the ways that usage of this library may fail.
#[derive(Debug, Clone, PartialEq, Eq)]
pub enum HueError {
    /// A network error occurred while performing an HTTP request.
    Reqwest { msg: String },
    /// JSON could not be read or written, usually while reading a bridge response.
    SerdeJson { msg: String },
    /// An address handed out by a discovery service is not a valid IP address.
    AddrParse { msg: String },
    /// The bridge returned a response that does not conform to the API.
    ProtocolError { msg: String },
    /// The bridge reported an error in the legacy format, with its numeric code.
    BridgeError { code: usize, msg: String },
    /// The bridge reported an error in the resource-oriented format.
    BridgeErrorV2 { description: String },
    /// No bridge could be found on the local network.
    DiscoveryError { msg: String },
    /// A light command text does not match any form of the command grammar.
    CommandError { msg: String },
}

/// The message that an error carries.
pub open spec fn error_message(e: HueError) -> Seq<char> {
    match e {
        HueError::Reqwest { msg } => msg@,
        HueError::SerdeJson { msg } => msg@,
        HueError::AddrParse { msg } => msg@,
        HueError::ProtocolError { msg } => msg@,
        HueError::BridgeError { msg, .. } => msg@,
        HueError::BridgeErrorV2 { description } => description@,
        HueError::DiscoveryError { msg } => msg@,
        HueError::CommandError { msg } => msg@,
    }
}

impl HueError {
    /// The message that this error carries.
    pub fn message(&self) -> (r: &str)
        ensures
            r@ == error_message(*self),
    {
        match self {
            HueError::Reqwest { msg } => msg.as_str(),
            HueError::SerdeJson { msg } => msg.as_str(),
            HueError::AddrParse { msg } => msg.as_str(),
            HueError::ProtocolError { msg } => msg.as_str(),
            HueError::BridgeError { msg, .. } => msg.as_str(),
            HueError::BridgeErrorV2 { description } => description.as_str(),
            HueError::DiscoveryError { msg } => msg.as_str(),
            HueError::CommandError { msg } => msg.as_str(),
        }
    }

    /// A protocol error carrying `msg`.
    pub fn protocol_err(msg: &str) -> (r: HueError)
        ensures
            r matches HueError::ProtocolError { msg: m } && m@ == msg@,
    {
        HueError::ProtocolError { msg: String::from_str(msg) }
    }

    /// A discovery error carrying `msg`.
    pub fn discovery_err(msg: &str) -> (r: HueError)
        ensures
            r matches HueError::DiscoveryError { msg: m } && m@ == msg@,
    {
        HueError::DiscoveryError { msg: String::from_str(msg) }
    }

    /// Whether this is the bridge's answer to a registration attempt made while its link
    /// button was not pressed.
    pub fn is_link_button_not_pressed(&self) -> (r: bool)
        ensures
            r == (self matches HueError::BridgeError { code, .. } && code == 101),
    {
        match self {
            HueError::BridgeError { code, .. } => *code == 101,
            _ => false,
        }
    }

    /// The meaning of a legacy bridge error code, if this is such an error.
    pub fn bridge_error(&self) -> (r: Option<BridgeError>)
        ensures
            match self {
                HueError::BridgeError { code, .. } => r == Some(
                    if *code <= 0xffff {
                        bridge_error_of(*code as u16)
                    } else {
                        BridgeError::Other
                    },
                ),
                _ => r is None,
            },
    {
        match self {
            HueError::BridgeError { code, .. } => {
                if *code <= 0xffff {
                    Some(BridgeError::from(*code as u16))
                } else {
                    Some(BridgeError::Other)
                }
            },
            _ => None,
        }
    }
}

/// The error codes that a bridge reports in its legacy API.
#[derive(Debug, Copy, Clone, PartialEq, Eq, Structural)]
pub enum BridgeError {
    UnauthorizedUser,
    BodyContainsInvalidJson,
    ResourceNotAvailable,
    MethodNotAvailableForResource,
    MissingParametersInBody,
    ParameterNotAvailable,
    InvalidValueForParameter,
    ParameterIsNotModifiable,
    TooManyItemsInList,
    ProtalConnectionRequired,
    InternalError,
    LinkButtonNotPressed,
    DHCPCannotBeDisabled,
    InvalidUpdateState,
    DeviceIsSetToOff,
    GroupCouldNotBeCreatedGroupFull,
    DeviceCouldNotBeAddedGroupFull,
    DeviceIsUnreachable,
    UpdateOrDeleteGroupOfThisTypeNotAllowed,
    LightAlreadyUsed,
    SceneCouldNotBeCreated,
    SceneCouldNotBeCreatedBufferFull,
    SceneCouldNotBeRemoved,
    NotAllowedToCreateSensorType,
    SensorListIsFull,
    RuleEngineFull,
    ConditionError,
    ActionError,
    UnableToActivae,
    ScheduleListIsFull,
    ScheduleTimezoneNotValid,
    ScheduleCannotSetTimeAndLocalTime,
    CannotCreateSchedule,
    CannotEnableScheduleTimeInPast,
    CommandError,
    SourceModelInvalid,
    SourceFactoryNew,
    InvalidState,
    /// Any code that is not listed above.
    Other,
}

/// The numeric code of each listed error; `None` for `Other`.
pub open spec fn code_of(e: BridgeError) -> Option<u16> {
    match e {
        BridgeError::UnauthorizedUser => Some(1u16),
        BridgeError::BodyContainsInvalidJson => Some(2u16),
        BridgeError::ResourceNotAvailable => Some(3u16),
        BridgeError::MethodNotAvailableForResource => Some(4u16),
        BridgeError::MissingParametersInBody => Some(5u16),
        BridgeError::ParameterNotAvailable => Some(6u16),
        BridgeError::InvalidValueForParameter => Some(7u16),
        BridgeError::ParameterIsNotModifiable => Some(8u16),
        BridgeError::TooManyItemsInList => Some(11u16),
        BridgeError::ProtalConnectionRequired => Some(12u16),
        BridgeError::InternalError => Some(901u16),
        BridgeError::LinkButtonNotPressed => Some(101u16),
        BridgeError::DHCPCannotBeDisabled => Some(110u16),
        BridgeError::InvalidUpdateState => Some(111u16),
        BridgeError::DeviceIsSetToOff => Some(201u16),
        BridgeError::GroupCouldNotBeCreatedGroupFull => Some(301u16),
        BridgeError::DeviceCouldNotBeAddedGroupFull => Some(302u16),
        BridgeError::DeviceIsUnreachable => Some(304u16),
        BridgeError::UpdateOrDeleteGroupOfThisTypeNotAllowed => Some(305u16),
        BridgeError::LightAlreadyUsed => Some(306u16),
        BridgeError::SceneCouldNotBeCreated => Some(401u16),
        BridgeError::SceneCouldNotBeCreatedBufferFull => Some(402u16),
        BridgeError::SceneCouldNotBeRemoved => Some(403u16),
        BridgeError::NotAllowedToCreateSensorType => Some(501u16),
        BridgeError::SensorListIsFull => Some(502u16),
        BridgeError::RuleEngineFull => Some(601u16),
        BridgeError::ConditionError => Some(607u16),
        BridgeError::ActionError => Some(608u16),
        BridgeError::UnableToActivae => Some(609u16),
        BridgeError::ScheduleListIsFull => Some(701u16),
        BridgeError::ScheduleTimezoneNotValid => Some(702u16),
        BridgeError::ScheduleCannotSetTimeAndLocalTime => Some(703u16),
        BridgeError::CannotCreateSchedule => Some(704u16),
        BridgeError::CannotEnableScheduleTimeInPast => Some(705u16),
        BridgeError::CommandError => Some(706u16),
        BridgeError::SourceModelInvalid => Some(801u16),
        BridgeError::SourceFactoryNew => Some(802u16),
        BridgeError::InvalidState => Some(803u16),
        BridgeError::Other => None,
    }
}

/// The error that a numeric code stands for: the listed error with that code, or `Other`.
pub open spec fn bridge_error_of(n: u16) -> BridgeError {
    match n {
        1 => BridgeError::UnauthorizedUser,
        2 => BridgeError::BodyContainsInvalidJson,
        3 => BridgeError::ResourceNotAvailable,
        4 => BridgeError::MethodNotAvailableForResource,
        5 => BridgeError::MissingParametersInBody,
        6 => BridgeError::ParameterNotAvailable,
        7 => BridgeError::InvalidValueForParameter,
        8 => BridgeError::ParameterIsNotModifiable,
        11 => BridgeError::TooManyItemsInList,
        12 => BridgeError::ProtalConnectionRequired,
        901 => BridgeError::InternalError,
        101 => BridgeError::LinkButtonNotPressed,
        110 => BridgeError::DHCPCannotBeDisabled,
        111 => BridgeError::InvalidUpdateState,
        201 => BridgeError::DeviceIsSetToOff,
        301 => BridgeError::GroupCouldNotBeCreatedGroupFull,
        302 => BridgeError::DeviceCouldNotBeAddedGroupFull,
        304 => BridgeError::DeviceIsUnreachable,
        305 => BridgeError::UpdateOrDeleteGroupOfThisTypeNotAllowed,
        306 => BridgeError::LightAlreadyUsed,
        401 => BridgeError::SceneCouldNotBeCreated,
        402 => BridgeError::SceneCouldNotBeCreatedBufferFull,
        403 => BridgeError::SceneCouldNotBeRemoved,
        501 => BridgeError::NotAllowedToCreateSensorType,
        502 => BridgeError::SensorListIsFull,
        601 => BridgeError::RuleEngineFull,
        607 => BridgeError::ConditionError,
        608 => BridgeError::ActionError,
        609 => BridgeError::UnableToActivae,
        701 => BridgeError::ScheduleListIsFull,
        702 => BridgeError::ScheduleTimezoneNotValid,
        703 => BridgeError::ScheduleCannotSetTimeAndLocalTime,
        704 => BridgeError::CannotCreateSchedule,
        705 => BridgeError::CannotEnableScheduleTimeInPast,
        706 => BridgeError::CommandError,
        801 => BridgeError::SourceModelInvalid,
        802 => BridgeError::SourceFactoryNew,
        803 => BridgeError::InvalidState,
        _ => BridgeError::Other,
    }
}

impl BridgeError {
    /// The numeric code of this error; `None` for `Other`.
    pub fn code(&self) -> (r: Option<u16>)
        ensures
            r == code_of(*self),
    {
        match self {
            BridgeError::UnauthorizedUser => Some(1),
            BridgeError::BodyContainsInvalidJson => Some(2),
            BridgeError::ResourceNotAvailable => Some(3),
            BridgeError::MethodNotAvailableForResource => Some(4),
            BridgeError::MissingParametersInBody => Some(5),
            BridgeError::ParameterNotAvailable => Some(6),
            BridgeError::InvalidValueForParameter => Some(7),
            BridgeError::ParameterIsNotModifiable => Some(8),
            BridgeError::TooManyItemsInList => Some(11),
            BridgeError::ProtalConnectionRequired => Some(12),
            BridgeError::InternalError => Some(901),
            BridgeError::LinkButtonNotPressed => Some(101),
            BridgeError::DHCPCannotBeDisabled => Some(110),
            BridgeError::InvalidUpdateState => Some(111),
            BridgeError::DeviceIsSetToOff => Some(201),
            BridgeError::GroupCouldNotBeCreatedGroupFull => Some(301),
            BridgeError::DeviceCouldNotBeAddedGroupFull => Some(302),
            BridgeError::DeviceIsUnreachable => Some(304),
            BridgeError::UpdateOrDeleteGroupOfThisTypeNotAllowed => Some(305),
            BridgeError::LightAlreadyUsed => Some(306),
            BridgeError::SceneCouldNotBeCreated => Some(401),
            BridgeError::SceneCouldNotBeCreatedBufferFull => Some(402),
            BridgeError::SceneCouldNotBeRemoved => Some(403),
            BridgeError::NotAllowedToCreateSensorType => Some(501),
            BridgeError::SensorListIsFull => Some(502),
            BridgeError::RuleEngineFull => Some(601),
            BridgeError::ConditionError => Some(607),
            BridgeError::ActionError => Some(608),
            BridgeError::UnableToActivae => Some(609),
            BridgeError::ScheduleListIsFull => Some(701),
            BridgeError::ScheduleTimezoneNotValid => Some(702),
            BridgeError::ScheduleCannotSetTimeAndLocalTime => Some(703),
            BridgeError::CannotCreateSchedule => Some(704),
            BridgeError::CannotEnableScheduleTimeInPast => Some(705),
            BridgeError::CommandError => Some(706),
            BridgeError::SourceModelInvalid => Some(801),
            BridgeError::SourceFactoryNew => Some(802),
            BridgeError::InvalidState => Some(803),
            BridgeError::Other => None,
        }
    }
}

impl From<u16> for BridgeError {
    fn from(n: u16) -> (r: BridgeError) {
        match n {
            1 => BridgeError::UnauthorizedUser,
            2 => BridgeError::BodyContainsInvalidJson,
            3 => BridgeError::ResourceNotAvailable,
            4 => BridgeError::MethodNotAvailableForResource,
            5 => BridgeError::MissingParametersInBody,
            6 => BridgeError::ParameterNotAvailable,
            7 => BridgeError::InvalidValueForParameter,
            8 => BridgeError::ParameterIsNotModifiable,
            11 => BridgeError::TooManyItemsInList,
            12 => BridgeError::ProtalConnectionRequired,
            901 => BridgeError::InternalError,
            101 => BridgeError::LinkButtonNotPressed,
            110 => BridgeError::DHCPCannotBeDisabled,
            111 => BridgeError::InvalidUpdateState,
            201 => BridgeError::DeviceIsSetToOff,
            301 => BridgeError::GroupCouldNotBeCreatedGroupFull,
            302 => BridgeError::DeviceCouldNotBeAddedGroupFull,
            304 => BridgeError::DeviceIsUnreachable,
            305 => BridgeError::UpdateOrDeleteGroupOfThisTypeNotAllowed,
            306 => BridgeError::LightAlreadyUsed,
            401 => BridgeError::SceneCouldNotBeCreated,
            402 => BridgeError::SceneCouldNotBeCreatedBufferFull,
            403 => BridgeError::SceneCouldNotBeRemoved,
            501 => BridgeError::NotAllowedToCreateSensorType,
            502 => BridgeError::SensorListIsFull,
            601 => BridgeError::RuleEngineFull,
            607 => BridgeError::ConditionError,
            608 => BridgeError::ActionError,
            609 => BridgeError::UnableToActivae,
            701 => BridgeError::ScheduleListIsFull,
            702 => BridgeError::ScheduleTimezoneNotValid,
            703 => BridgeError::ScheduleCannotSetTimeAndLocalTime,
            704 => BridgeError::CannotCreateSchedule,
            705 => BridgeError::CannotEnableScheduleTimeInPast,
            706 => BridgeError::CommandError,
            801 => BridgeError::SourceModelInvalid,
            802 => BridgeError::SourceFactoryNew,
            803 => BridgeError::InvalidState,
            _ => BridgeError::Other,
        }
    }
}

impl vstd::std_specs::convert::FromSpecImpl<u16> for BridgeError {
    open spec fn obeys_from_spec() -> bool {
        true
    }

    open spec fn from_spec(n: u16) -> BridgeError {
        bridge_error_of(n)
    }
}

/// Every listed error is what its own code stands for, and a code stands for a listed
/// error exactly when that error has this code.
pub proof fn lemma_code_round_trip(e: BridgeError, n: u16)
    ensures
        code_of(e) matches Some(c) ==> bridge_error_of(c) == e,
        bridge_error_of(n) != BridgeError::Other ==> code_of(bridge_error_of(n)) == Some(n),
{
}

} // verus!
