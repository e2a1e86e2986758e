//! Row preparation for the persistence gateway.
//!
//! One audit row is written per ingestion run, and each typed record
//! collection is bulk-inserted tagged with the audit row's identifier. The
//! SQL statements themselves are executed by the surrounding application;
//! the verified code prepares each row: it parses the nullable upstream
//! timestamp (a parse failure is stored as absent, never an error) and
//! attaches the run identifier, leaving every other field unchanged.

use vstd::prelude::*;

use crate::live_ais::response_structs::{AISAtonData, AISPositionData, AISStaticData};

verus! {

/// A database-side failure, as the application observed it.
#[derive(Debug, Clone, PartialEq)]
pub struct StorageError {
    pub message: String,
}

/// An absolute instant: seconds of the UNIX epoch and subsecond
/// nanoseconds.
pub type UtcInstant = (i64, u32);

/// The instant an RFC 3339 timestamp text denotes, in UTC, or `None` where
/// the text is not a valid RFC 3339 date-time; a function of the text
/// alone.
pub uninterp spec fn rfc3339_instant_of(s: Seq<char>) -> Option<UtcInstant>;

/// Relies on chrono's `DateTime::parse_from_rfc3339` and the conversion of
/// the parsed value to UTC epoch seconds and subsecond nanoseconds: parsing
/// is deterministic in the text alone.
#[verifier::external_body]
fn parse_rfc3339_utc(s: &str) -> (r: Option<UtcInstant>)
    ensures
        r == rfc3339_instant_of(s@),
{
    match chrono::DateTime::parse_from_rfc3339(s) {
        Ok(dt) => {
            let utc = dt.with_timezone(&chrono::Utc);
            Some((utc.timestamp(), utc.timestamp_subsec_nanos()))
        },
        Err(_) => None,
    }
}

/// The lossy-tolerant timestamp policy: an absent text stays absent, a
/// malformed text becomes absent, a well-formed text becomes its instant.
pub open spec fn spec_convert_to_datetime(input: Option<String>) -> Option<UtcInstant> {
    match input {
        Some(s) => rfc3339_instant_of(s@),
        None => None,
    }
}

/// Parses a nullable upstream timestamp; on parse failure the value is
/// stored as absent rather than failing the row.
pub fn convert_to_datetime_option(input: Option<String>) -> (r: Option<UtcInstant>)
    ensures
        r == spec_convert_to_datetime(input),
{
    match input {
        Some(s) => parse_rfc3339_utc(s.as_str()),
        None => None,
    }
}

/// A `staticdata` row ready for insertion: the record's fields, its
/// timestamp parsed, and the run identifier it is tagged with.
#[derive(Debug, Clone, PartialEq)]
pub struct StaticDataRow {
    pub type_field: Option<String>,
    pub message_type: Option<i64>,
    pub mmsi: Option<i64>,
    pub msgtime: Option<UtcInstant>,
    pub imo_number: Option<i64>,
    pub call_sign: Option<String>,
    pub destination: Option<String>,
    pub eta: Option<String>,
    pub name: Option<String>,
    pub draught: Option<i32>,
    pub ship_length: Option<i32>,
    pub ship_width: Option<i32>,
    pub ship_type: Option<i32>,
    pub dimension_a: Option<i32>,
    pub dimension_b: Option<i32>,
    pub dimension_c: Option<i32>,
    pub dimension_d: Option<i32>,
    pub position_fixing_device_type: Option<i64>,
    pub report_class: Option<String>,
    pub log_id: u128,
}

/// An `aton` row ready for insertion.
#[derive(Debug, Clone, PartialEq)]
pub struct AtonDataRow {
    pub type_field: Option<String>,
    pub message_type: Option<i64>,
    pub mmsi: Option<i64>,
    pub msgtime: Option<UtcInstant>,
    pub dimension_a: Option<i32>,
    pub dimension_b: Option<i32>,
    pub dimension_c: Option<i32>,
    pub dimension_d: Option<i32>,
    pub type_of_aids_to_navigation: Option<i64>,
    pub latitude: Option<u64>,
    pub longitude: Option<u64>,
    pub name: Option<String>,
    pub type_of_electronic_fixing_device: Option<i64>,
    pub log_id: u128,
}

/// A `position` row ready for insertion.
#[derive(Debug, Clone, PartialEq)]
pub struct PositionDataRow {
    pub type_field: Option<String>,
    pub message_type: Option<i64>,
    pub course_over_ground: Option<u64>,
    pub ais_class: Option<String>,
    pub altitude: Option<u64>,
    pub latitude: Option<u64>,
    pub longitude: Option<u64>,
    pub navigational_status: Option<i64>,
    pub rate_of_turn: Option<i64>,
    pub speed_over_ground: Option<u64>,
    pub true_heading: Option<i64>,
    pub mmsi: Option<i64>,
    pub msgtime: Option<UtcInstant>,
    pub log_id: u128,
}

/// The row a `staticdata` record is stored as under run `log_id`.
pub open spec fn spec_static_row(d: AISStaticData, log_id: u128) -> StaticDataRow {
    StaticDataRow {
        type_field: d.type_field,
        message_type: d.message_type,
        mmsi: d.mmsi,
        msgtime: spec_convert_to_datetime(d.msgtime),
        imo_number: d.imo_number,
        call_sign: d.call_sign,
        destination: d.destination,
        eta: d.eta,
        name: d.name,
        draught: d.draught,
        ship_length: d.ship_length,
        ship_width: d.ship_width,
        ship_type: d.ship_type,
        dimension_a: d.dimension_a,
        dimension_b: d.dimension_b,
        dimension_c: d.dimension_c,
        dimension_d: d.dimension_d,
        position_fixing_device_type: d.position_fixing_device_type,
        report_class: d.report_class,
        log_id,
    }
}

/// The row an `aton` record is stored as under run `log_id`.
pub open spec fn spec_aton_row(d: AISAtonData, log_id: u128) -> AtonDataRow {
    AtonDataRow {
        type_field: d.type_field,
        message_type: d.message_type,
        mmsi: d.mmsi,
        msgtime: spec_convert_to_datetime(d.msgtime),
        dimension_a: d.dimension_a,
        dimension_b: d.dimension_b,
        dimension_c: d.dimension_c,
        dimension_d: d.dimension_d,
        type_of_aids_to_navigation: d.type_of_aids_to_navigation,
        latitude: d.latitude,
        longitude: d.longitude,
        name: d.name,
        type_of_electronic_fixing_device: d.type_of_electronic_fixing_device,
        log_id,
    }
}

/// The row a `position` record is stored as under run `log_id`.
pub open spec fn spec_position_row(d: AISPositionData, log_id: u128) -> PositionDataRow {
    PositionDataRow {
        type_field: d.type_field,
        message_type: d.message_type,
        course_over_ground: d.course_over_ground,
        ais_class: d.ais_class,
        altitude: d.altitude,
        latitude: d.latitude,
        longitude: d.longitude,
        navigational_status: d.navigational_status,
        rate_of_turn: d.rate_of_turn,
        speed_over_ground: d.speed_over_ground,
        true_heading: d.true_heading,
        mmsi: d.mmsi,
        msgtime: spec_convert_to_datetime(d.msgtime),
        log_id,
    }
}

/// The verified half of the persistence gateway: it turns typed records
/// into rows carrying the run identifier; the application executes the SQL.
pub struct DbMethods {}

impl DbMethods {
    /// Prepares one `staticdata` record for insertion under run `log_id`.
    pub fn prepare_static_row(&self, data: AISStaticData, log_id: u128) -> (r: StaticDataRow)
        ensures
            r == spec_static_row(data, log_id),
    {
        StaticDataRow {
            type_field: data.type_field,
            message_type: data.message_type,
            mmsi: data.mmsi,
            msgtime: convert_to_datetime_option(data.msgtime),
            imo_number: data.imo_number,
            call_sign: data.call_sign,
            destination: data.destination,
            eta: data.eta,
            name: data.name,
            draught: data.draught,
            ship_length: data.ship_length,
            ship_width: data.ship_width,
            ship_type: data.ship_type,
            dimension_a: data.dimension_a,
            dimension_b: data.dimension_b,
            dimension_c: data.dimension_c,
            dimension_d: data.dimension_d,
            position_fixing_device_type: data.position_fixing_device_type,
            report_class: data.report_class,
            log_id,
        }
    }

    /// Prepares one `aton` record for insertion under run `log_id`.
    pub fn prepare_aton_row(&self, data: AISAtonData, log_id: u128) -> (r: AtonDataRow)
        ensures
            r == spec_aton_row(data, log_id),
    {
        AtonDataRow {
            type_field: data.type_field,
            message_type: data.message_type,
            mmsi: data.mmsi,
            msgtime: convert_to_datetime_option(data.msgtime),
            dimension_a: data.dimension_a,
            dimension_b: data.dimension_b,
            dimension_c: data.dimension_c,
            dimension_d: data.dimension_d,
            type_of_aids_to_navigation: data.type_of_aids_to_navigation,
            latitude: data.latitude,
            longitude: data.longitude,
            name: data.name,
            type_of_electronic_fixing_device: data.type_of_electronic_fixing_device,
            log_id,
        }
    }

    /// Prepares one `position` record for insertion under run `log_id`.
    pub fn prepare_position_row(&self, data: AISPositionData, log_id: u128) -> (r: PositionDataRow)
        ensures
            r == spec_position_row(data, log_id),
    {
        PositionDataRow {
            type_field: data.type_field,
            message_type: data.message_type,
            course_over_ground: data.course_over_ground,
            ais_class: data.ais_class,
            altitude: data.altitude,
            latitude: data.latitude,
            longitude: data.longitude,
            navigational_status: data.navigational_status,
            rate_of_turn: data.rate_of_turn,
            speed_over_ground: data.speed_over_ground,
            true_heading: data.true_heading,
            mmsi: data.mmsi,
            msgtime: convert_to_datetime_option(data.msgtime),
            log_id,
        }
    }

    /// Prepares a whole `staticdata` collection, every row tagged with the
    /// same run identifier; empty input prepares an empty insert.
    pub fn prepare_static_rows(&self, static_data: Vec<AISStaticData>, log_id: u128) -> (r: Vec<
        StaticDataRow,
    >)
        ensures
            r@ == static_data@.map_values(|d: AISStaticData| spec_static_row(d, log_id)),
    {
        let mut rows: Vec<StaticDataRow> = Vec::new();
        let n = static_data.len();
        let mut data = static_data;
        let ghost all = data@;
        let mut i: usize = 0;
        while i < n
            invariant
                n == all.len(),
                data@ == all.skip(i as int),
                i <= n,
                rows@ == all.take(i as int).map_values(
                    |d: AISStaticData| spec_static_row(d, log_id),
                ),
            decreases n - i,
        {
            let d = data.remove(0);
            assert(d == all[i as int]);
            rows.push(self.prepare_static_row(d, log_id));
            proof {
                assert(all.take(i + 1).drop_last() =~= all.take(i as int));
                assert(all.take(i + 1).map_values(|d: AISStaticData| spec_static_row(d, log_id))
                    =~= all.take(i as int).map_values(
                    |d: AISStaticData| spec_static_row(d, log_id),
                ).push(spec_static_row(all[i as int], log_id)));
                assert(data@ =~= all.skip(i + 1));
            }
            i = i + 1;
        }
        proof {
            assert(all.take(n as int) =~= all);
        }
        rows
    }

    /// Prepares a whole `aton` collection under one run identifier.
    pub fn prepare_aton_rows(&self, aton_data: Vec<AISAtonData>, log_id: u128) -> (r: Vec<
        AtonDataRow,
    >)
        ensures
            r@ == aton_data@.map_values(|d: AISAtonData| spec_aton_row(d, log_id)),
    {
        let mut rows: Vec<AtonDataRow> = Vec::new();
        let n = aton_data.len();
        let mut data = aton_data;
        let ghost all = data@;
        let mut i: usize = 0;
        while i < n
            invariant
                n == all.len(),
                data@ == all.skip(i as int),
                i <= n,
                rows@ == all.take(i as int).map_values(|d: AISAtonData| spec_aton_row(d, log_id)),
            decreases n - i,
        {
            let d = data.remove(0);
            assert(d == all[i as int]);
            rows.push(self.prepare_aton_row(d, log_id));
            proof {
                assert(all.take(i + 1).drop_last() =~= all.take(i as int));
                assert(all.take(i + 1).map_values(|d: AISAtonData| spec_aton_row(d, log_id))
                    =~= all.take(i as int).map_values(|d: AISAtonData| spec_aton_row(d, log_id)).push(
                    spec_aton_row(all[i as int], log_id),
                ));
                assert(data@ =~= all.skip(i + 1));
            }
            i = i + 1;
        }
        proof {
            assert(all.take(n as int) =~= all);
        }
        rows
    }

    /// Prepares a whole `position` collection under one run identifier.
    pub fn prepare_position_rows(&self, position_data: Vec<AISPositionData>, log_id: u128) -> (r:
        Vec<PositionDataRow>)
        ensures
            r@ == position_data@.map_values(|d: AISPositionData| spec_position_row(d, log_id)),
    {
        let mut rows: Vec<PositionDataRow> = Vec::new();
        let n = position_data.len();
        let mut data = position_data;
        let ghost all = data@;
        let mut i: usize = 0;
        while i < n
            invariant
                n == all.len(),
                data@ == all.skip(i as int),
                i <= n,
                rows@ == all.take(i as int).map_values(
                    |d: AISPositionData| spec_position_row(d, log_id),
                ),
            decreases n - i,
        {
            let d = data.remove(0);
            assert(d == all[i as int]);
            rows.push(self.prepare_position_row(d, log_id));
            proof {
                assert(all.take(i + 1).drop_last() =~= all.take(i as int));
                assert(all.take(i + 1).map_values(
                    |d: AISPositionData| spec_position_row(d, log_id),
                ) =~= all.take(i as int).map_values(
                    |d: AISPositionData| spec_position_row(d, log_id),
                ).push(spec_position_row(all[i as int], log_id)));
                assert(data@ =~= all.skip(i + 1));
            }
            i = i + 1;
        }
        proof {
            assert(all.take(n as int) =~= all);
        }
        rows
    }
}

/// The lossy-tolerant timestamp policy leaves the rest of the row intact:
/// a `staticdata` record whose timestamp text does not parse is stored with
/// its timestamp absent and every other field unchanged.
pub proof fn lemma_malformed_msgtime_only_clears_msgtime(d: AISStaticData, log_id: u128)
    requires
        d.msgtime matches Some(s) && rfc3339_instant_of(s@) is None,
    ensures
        spec_static_row(d, log_id).msgtime is None,
        spec_static_row(d, log_id).type_field == d.type_field,
        spec_static_row(d, log_id).message_type == d.message_type,
        spec_static_row(d, log_id).mmsi == d.mmsi,
        spec_static_row(d, log_id).imo_number == d.imo_number,
        spec_static_row(d, log_id).call_sign == d.call_sign,
        spec_static_row(d, log_id).destination == d.destination,
        spec_static_row(d, log_id).eta == d.eta,
        spec_static_row(d, log_id).name == d.name,
        spec_static_row(d, log_id).draught == d.draught,
        spec_static_row(d, log_id).ship_length == d.ship_length,
        spec_static_row(d, log_id).ship_width == d.ship_width,
        spec_static_row(d, log_id).ship_type == d.ship_type,
        spec_static_row(d, log_id).dimension_a == d.dimension_a,
        spec_static_row(d, log_id).dimension_b == d.dimension_b,
        spec_static_row(d, log_id).dimension_c == d.dimension_c,
        spec_static_row(d, log_id).dimension_d == d.dimension_d,
        spec_static_row(d, log_id).position_fixing_device_type == d.position_fixing_device_type,
        spec_static_row(d, log_id).report_class == d.report_class,
        spec_static_row(d, log_id).log_id == log_id,
{
}

} // verus!
