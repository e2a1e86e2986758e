//! The record shapes of the live AIS API.
//!
//! The upstream endpoint returns one heterogeneous JSON array; each element
//! is decoded by the application into the flat, nullable-everything
//! [`GetAISLatestResponseItem`] shape and handed to this library as plain
//! values. Fractional measurements (latitude, speed and the like) are
//! carried as the 64-bit IEEE-754 bit pattern of the upstream number, so
//! that the verified code can hold and move them without floating-point
//! types; the application converts at the boundary.

use vstd::prelude::*;

verus! {

/// Body of a successful token response from the identity endpoint.
#[derive(Debug, Clone, PartialEq)]
pub struct TokenResponse {
    pub access_token: String,
    pub expires_in: i64,
    pub token_type: String,
    pub scope: String,
}

/// Ship identity and voyage attributes of a `staticdata` report.
#[derive(Debug, Clone, PartialEq)]
pub struct AISStaticData {
    pub type_field: Option<String>,
    pub message_type: Option<i64>,
    pub mmsi: Option<i64>,
    pub msgtime: Option<String>,
    pub imo_number: Option<i64>,
    pub call_sign: Option<String>,
    pub destination: Option<String>,
    pub eta: Option<String>,
    pub name: Option<String>,
    pub draught: Option<i32>,
    pub ship_length: Option<i32>,
    pub ship_width: Option<i32>,
    pub ship_type: Option<i32>,
    pub dimension_a: Option<i32>,
    pub dimension_b: Option<i32>,
    pub dimension_c: Option<i32>,
    pub dimension_d: Option<i32>,
    pub position_fixing_device_type: Option<i64>,
    pub report_class: Option<String>,
}

/// Navigation-aid attributes of an `aton` report.
///
/// `latitude` and `longitude` are IEEE-754 bit patterns.
#[derive(Debug, Clone, PartialEq)]
pub struct AISAtonData {
    pub type_field: Option<String>,
    pub message_type: Option<i64>,
    pub mmsi: Option<i64>,
    pub msgtime: Option<String>,
    pub dimension_a: Option<i32>,
    pub dimension_b: Option<i32>,
    pub dimension_c: Option<i32>,
    pub dimension_d: Option<i32>,
    pub type_of_aids_to_navigation: Option<i64>,
    pub latitude: Option<u64>,
    pub longitude: Option<u64>,
    pub name: Option<String>,
    pub type_of_electronic_fixing_device: Option<i64>,
}

/// Kinematic attributes of a `position` report.
///
/// `course_over_ground`, `altitude`, `latitude`, `longitude` and
/// `speed_over_ground` are IEEE-754 bit patterns.
#[derive(Debug, Clone, PartialEq)]
pub struct AISPositionData {
    pub type_field: Option<String>,
    pub message_type: Option<i64>,
    pub course_over_ground: Option<u64>,
    pub ais_class: Option<String>,
    pub altitude: Option<u64>,
    pub latitude: Option<u64>,
    pub longitude: Option<u64>,
    pub navigational_status: Option<i64>,
    pub rate_of_turn: Option<i64>,
    pub speed_over_ground: Option<u64>,
    pub true_heading: Option<i64>,
    pub mmsi: Option<i64>,
    pub msgtime: Option<String>,
}

/// One element of the upstream report array: the union of all fields of the
/// three typed shapes, every one of them nullable, with the `type` field of
/// the JSON carried as `type_field`.
#[derive(Debug, Clone, PartialEq)]
pub struct GetAISLatestResponseItem {
    pub type_field: Option<String>,
    pub message_type: Option<i64>,
    pub mmsi: Option<i64>,
    pub msgtime: Option<String>,
    pub imo_number: Option<i64>,
    pub call_sign: Option<String>,
    pub destination: Option<String>,
    pub eta: Option<String>,
    pub name: Option<String>,
    pub draught: Option<i32>,
    pub ship_length: Option<i32>,
    pub ship_width: Option<i32>,
    pub ship_type: Option<i32>,
    pub dimension_a: Option<i32>,
    pub dimension_b: Option<i32>,
    pub dimension_c: Option<i32>,
    pub dimension_d: Option<i32>,
    pub position_fixing_device_type: Option<i64>,
    pub report_class: Option<String>,
    pub type_of_aids_to_navigation: Option<i64>,
    pub latitude: Option<u64>,
    pub longitude: Option<u64>,
    pub type_of_electronic_fixing_device: Option<i64>,
    pub course_over_ground: Option<u64>,
    pub ais_class: Option<String>,
    pub altitude: Option<u64>,
    pub navigational_status: Option<i64>,
    pub rate_of_turn: Option<i64>,
    pub speed_over_ground: Option<u64>,
    pub true_heading: Option<i64>,
}

pub type AISLatestResponses = Vec<GetAISLatestResponseItem>;

/// The result of one fetch of the report window: the endpoint that answered,
/// its HTTP status, and on success the decoded records together with their
/// count. `ais_latest_responses` is `None` only when no successful fetch
/// produced records; an empty vector is a present, zero-item result.
#[derive(Debug, Clone, PartialEq)]
pub struct GetAISLatestResponse {
    pub api_endpoint: String,
    pub status_code: u16,
    pub content_length: Option<usize>,
    pub ais_latest_responses: Option<AISLatestResponses>,
}

/// The `staticdata` projection of a flat record.
pub open spec fn spec_static_of(item: GetAISLatestResponseItem) -> AISStaticData {
    AISStaticData {
        type_field: item.type_field,
        message_type: item.message_type,
        mmsi: item.mmsi,
        msgtime: item.msgtime,
        imo_number: item.imo_number,
        call_sign: item.call_sign,
        destination: item.destination,
        eta: item.eta,
        name: item.name,
        draught: item.draught,
        ship_length: item.ship_length,
        ship_width: item.ship_width,
        ship_type: item.ship_type,
        dimension_a: item.dimension_a,
        dimension_b: item.dimension_b,
        dimension_c: item.dimension_c,
        dimension_d: item.dimension_d,
        position_fixing_device_type: item.position_fixing_device_type,
        report_class: item.report_class,
    }
}

/// The `aton` projection of a flat record.
pub open spec fn spec_aton_of(item: GetAISLatestResponseItem) -> AISAtonData {
    AISAtonData {
        type_field: item.type_field,
        message_type: item.message_type,
        mmsi: item.mmsi,
        msgtime: item.msgtime,
        dimension_a: item.dimension_a,
        dimension_b: item.dimension_b,
        dimension_c: item.dimension_c,
        dimension_d: item.dimension_d,
        type_of_aids_to_navigation: item.type_of_aids_to_navigation,
        latitude: item.latitude,
        longitude: item.longitude,
        name: item.name,
        type_of_electronic_fixing_device: item.type_of_electronic_fixing_device,
    }
}

/// The `position` projection of a flat record.
pub open spec fn spec_position_of(item: GetAISLatestResponseItem) -> AISPositionData {
    AISPositionData {
        type_field: item.type_field,
        message_type: item.message_type,
        course_over_ground: item.course_over_ground,
        ais_class: item.ais_class,
        altitude: item.altitude,
        latitude: item.latitude,
        longitude: item.longitude,
        navigational_status: item.navigational_status,
        rate_of_turn: item.rate_of_turn,
        speed_over_ground: item.speed_over_ground,
        true_heading: item.true_heading,
        mmsi: item.mmsi,
        msgtime: item.msgtime,
    }
}

fn clone_opt_string(o: &Option<String>) -> (r: Option<String>)
    ensures
        r == *o,
{
    match o {
        Some(s) => Some(s.clone()),
        None => None,
    }
}

impl AISStaticData {
    /// Projects a flat record into its `staticdata` view.
    pub fn from(item: &GetAISLatestResponseItem) -> (r: Self)
        ensures
            r == spec_static_of(*item),
    {
        AISStaticData {
            type_field: clone_opt_string(&item.type_field),
            message_type: item.message_type,
            mmsi: item.mmsi,
            msgtime: clone_opt_string(&item.msgtime),
            imo_number: item.imo_number,
            call_sign: clone_opt_string(&item.call_sign),
            destination: clone_opt_string(&item.destination),
            eta: clone_opt_string(&item.eta),
            name: clone_opt_string(&item.name),
            draught: item.draught,
            ship_length: item.ship_length,
            ship_width: item.ship_width,
            ship_type: item.ship_type,
            dimension_a: item.dimension_a,
            dimension_b: item.dimension_b,
            dimension_c: item.dimension_c,
            dimension_d: item.dimension_d,
            position_fixing_device_type: item.position_fixing_device_type,
            report_class: clone_opt_string(&item.report_class),
        }
    }
}

impl AISAtonData {
    /// Projects a flat record into its `aton` view.
    pub fn from(item: &GetAISLatestResponseItem) -> (r: Self)
        ensures
            r == spec_aton_of(*item),
    {
        AISAtonData {
            type_field: clone_opt_string(&item.type_field),
            message_type: item.message_type,
            mmsi: item.mmsi,
            msgtime: clone_opt_string(&item.msgtime),
            dimension_a: item.dimension_a,
            dimension_b: item.dimension_b,
            dimension_c: item.dimension_c,
            dimension_d: item.dimension_d,
            type_of_aids_to_navigation: item.type_of_aids_to_navigation,
            latitude: item.latitude,
            longitude: item.longitude,
            name: clone_opt_string(&item.name),
            type_of_electronic_fixing_device: item.type_of_electronic_fixing_device,
        }
    }
}

impl AISPositionData {
    /// Projects a flat record into its `position` view.
    pub fn from(item: &GetAISLatestResponseItem) -> (r: Self)
        ensures
            r == spec_position_of(*item),
    {
        AISPositionData {
            type_field: clone_opt_string(&item.type_field),
            message_type: item.message_type,
            course_over_ground: item.course_over_ground,
            ais_class: clone_opt_string(&item.ais_class),
            altitude: item.altitude,
            latitude: item.latitude,
            longitude: item.longitude,
            navigational_status: item.navigational_status,
            rate_of_turn: item.rate_of_turn,
            speed_over_ground: item.speed_over_ground,
            true_heading: item.true_heading,
            mmsi: item.mmsi,
            msgtime: clone_opt_string(&item.msgtime),
        }
    }
}

} // verus!
