//! The schedule records the portal returns, modeled with plain values: the
//! optional net cost is held in cents.

use vstd::prelude::*;

verus! {

/// Tariff information attached to a schedule record.
#[allow(non_snake_case)]
pub struct Tariff {
    /// Product-group code driving the summary text and icon.
    pub productgroup: Option<String>,
    /// Tariff name.
    pub name: Option<String>,
}

/// One scheduled pickup or service line, with the portal's field names.
#[allow(non_snake_case)]
pub struct TrashService {
    /// Next pickup date as an ISO `YYYY-MM-DD` string; absent for
    /// non-recurring services, whose records produce no event.
    pub ASTNextDate: Option<String>,
    /// Human-readable service name, always present.
    pub ASTNimi: String,
    /// Customer number, part of the identity tuple.
    pub ASTAsnro: String,
    /// Position, part of the identity tuple.
    pub ASTPos: i32,
    /// Service type id, part of the identity tuple; treated as 0 when absent.
    pub ASTTyyppi: Option<i32>,
    /// Tariff information including the product group.
    pub tariff: Option<Tariff>,
    /// Net cost in cents, before the tax-inclusive scaling.
    pub ASTHinta: Option<i64>,
    /// Recurrence interval label, rendered verbatim.
    pub ASTVali: String,
}

} // verus!
