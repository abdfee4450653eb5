use vstd::prelude::*;
use crate::date::{coerce_date, date_of};
use crate::errors::TwseError;
use crate::schema::{
    is_batch_error, is_status_ok, row_view, rows_decode, single_stock_read, status_ok,
    total_read, Response, RowShape, SingleStockInstitutionalInvestors,
    TotalInstitutionalInvestors,
};

verus! {

/// The feed's JSON answer, member by member, as read from its text; a member
/// that the answer lacks is `None`. A failed answer often holds `stat` alone.
#[derive(Debug, Clone)]
pub struct RawResponse {
    pub stat: String,
    pub date: Option<String>,
    pub title: Option<String>,
    pub fields: Option<Vec<String>>,
    pub data: Option<Vec<Vec<String>>>,
}

/// Every member that a report needs is there.
pub open spec fn raw_complete(raw: RawResponse) -> bool {
    raw.date is Some && raw.title is Some && raw.fields is Some && raw.data is Some
}

/// The answer reports success, is complete and carries a `YYYYMMDD` date:
/// its rows are what decides the outcome.
pub open spec fn raw_readable(raw: RawResponse) -> bool {
    status_ok(raw.stat@) && raw_complete(raw) && date_of(raw.date->0@) is Some
}

/// `e` is the error that an answer which is not readable gives: its status
/// when that is not `OK`, else `JsonError` for a missing member, else
/// `BadDate` with the date's text.
pub open spec fn is_answer_error(raw: RawResponse, e: TwseError) -> bool {
    if !status_ok(raw.stat@) {
        e matches TwseError::TWSEError(s) && s@ == raw.stat@
    } else if !raw_complete(raw) {
        e == TwseError::JsonError
    } else {
        e matches TwseError::BadDate { raw: d } && d@ == raw.date->0@
    }
}

impl Response {
    /// Checks an answer as read: the status first, then that every member is
    /// there, then the report date.
    pub fn from_raw(raw: RawResponse) -> (r: Result<Response, TwseError>)
        ensures
            r is Ok <==> raw_readable(raw),
            r matches Ok(resp) ==> resp.stat == raw.stat && resp.date@ == date_of(raw.date->0@)->0
                && resp.title == raw.title->0 && resp.fields == raw.fields->0 && resp.data
                == raw.data->0,
            r matches Err(e) ==> is_answer_error(raw, e),
    {
        let RawResponse { stat, date, title, fields, data } = raw;
        if !is_status_ok(&stat) {
            return Err(TwseError::TWSEError(stat));
        }
        match (date, title, fields, data) {
            (Some(date), Some(title), Some(fields), Some(data)) => {
                match coerce_date(date.as_str()) {
                    Ok(d) => Ok(Response { stat, date: d, title, fields, data }),
                    Err(_) => Err(TwseError::BadDate { raw: date }),
                }
            },
            _ => Err(TwseError::JsonError),
        }
    }
}

/// Decodes the market-wide report's answer into its records, in the feed's
/// row order.
pub fn decode_total_institution_investors(raw: RawResponse) -> (r: Result<Vec<TotalInstitutionalInvestors>, TwseError>)
    ensures
        !raw_readable(raw) ==> (r matches Err(e) && is_answer_error(raw, e)),
        raw_readable(raw) ==> (r is Ok <==> rows_decode(raw.data->0@, RowShape::Total)),
        raw_readable(raw) ==> (r matches Ok(v) ==> v@.len() == raw.data->0@.len() && forall|i: int|
            0 <= i < v@.len() ==> total_read(#[trigger] v@[i], row_view(raw.data->0@[i]@))),
        raw_readable(raw) ==> (r matches Err(e) ==> is_batch_error(raw.data->0@, RowShape::Total, e)),
{
    let resp = Response::from_raw(raw)?;
    resp.total_institutional_investors()
}

/// Decodes the per-security report's answer into its records, in the feed's
/// row order.
pub fn decode_single_stock_institutional_investors(raw: RawResponse) -> (r: Result<Vec<SingleStockInstitutionalInvestors>, TwseError>)
    ensures
        !raw_readable(raw) ==> (r matches Err(e) && is_answer_error(raw, e)),
        raw_readable(raw) ==> (r is Ok <==> rows_decode(raw.data->0@, RowShape::SingleStock)),
        raw_readable(raw) ==> (r matches Ok(v) ==> v@.len() == raw.data->0@.len() && forall|i: int|
            0 <= i < v@.len() ==> single_stock_read(#[trigger] v@[i], row_view(raw.data->0@[i]@))),
        raw_readable(raw) ==> (r matches Err(e) ==> is_batch_error(raw.data->0@, RowShape::SingleStock, e)),
{
    let resp = Response::from_raw(raw)?;
    resp.single_stock_institutional_investors()
}

} // verus!
