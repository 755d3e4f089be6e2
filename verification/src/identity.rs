use vstd::prelude::*;

verus! {

/// Name under which this service reports itself.
pub const SERVICE: &'static str = "srvcs-exponent";

/// What this service is for.
pub const CONCERN: &'static str = "arithmetic: base raised to exp (real)";

/// The one dependency that does the arithmetic.
pub const FLOATPOWER: &'static str = "srvcs-floatpower";

/// The names of the services this one depends on, in order.
pub open spec fn spec_depends_on() -> Seq<Seq<char>> {
    seq![FLOATPOWER@]
}

/// Identity document answered on `GET /`.
pub struct Info {
    pub service: &'static str,
    pub concern: &'static str,
    pub depends_on: Vec<&'static str>,
}

impl Info {
    /// The names of the dependencies, as text.
    pub open spec fn depends_on_view(&self) -> Seq<Seq<char>> {
        self.depends_on@.map_values(|s: &'static str| s@)
    }
}

/// `GET /`: the service's identity.
pub fn index() -> (info: Info)
    ensures
        info.service@ == SERVICE@,
        info.concern@ == CONCERN@,
        info.depends_on_view() == spec_depends_on(),
{
    let mut depends_on: Vec<&'static str> = Vec::new();
    depends_on.push(FLOATPOWER);
    let info = Info { service: SERVICE, concern: CONCERN, depends_on };
    assert(info.depends_on_view() =~= spec_depends_on());
    info
}

} // verus!
