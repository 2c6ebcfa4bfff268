use vstd::prelude::*;
use vstd::string::*;
use crate::number::{real_bits, Number, NumberView};
use crate::text::{
    equal_but_for_case, is_first_at, joined, same_but_for_case, same_text, split_at_first,
};

verus! {

/// What can go wrong between the remote service and the caller.
#[derive(Clone, Copy, Debug, PartialEq, Eq, Structural)]
pub enum ApiError {
    /// The request did not reach the service, or the service refused it.
    RequestError,
    /// A stored response could not be read.
    CacheError,
    /// The body is not the JSON that was expected.
    Deserialize,
    /// The body holds no list of materials.
    EmptyArray,
    /// A global-warming potential is not a number, a space and a unit.
    GwpError,
}

impl ApiError {
    /// The sentence shown for the error.
    pub fn message(&self) -> (m: String)
        ensures
            m@ == match *self {
                ApiError::RequestError => "Request failed"@,
                ApiError::CacheError => "Could not read cache"@,
                ApiError::Deserialize => "Could not deserialize"@,
                ApiError::EmptyArray => "Request succeded but the material list is empty"@,
                ApiError::GwpError => "Wrong GWP format"@,
            },
    {
        match self {
            ApiError::RequestError => String::from_str("Request failed"),
            ApiError::CacheError => String::from_str("Could not read cache"),
            ApiError::Deserialize => String::from_str("Could not deserialize"),
            ApiError::EmptyArray => String::from_str(
                "Request succeded but the material list is empty",
            ),
            ApiError::GwpError => String::from_str("Wrong GWP format"),
        }
    }
}

/// The closed set of units in which a global-warming potential is reported.
#[derive(Clone, Copy, Debug, PartialEq, Eq, Structural)]
pub enum GwpUnits {
    KgCO2e,
    Unknown,
}

/// The unit that a spelling stands for: kilograms of carbon dioxide
/// equivalent for `kgco2e` in any mix of capitals and small letters, and
/// `Unknown` for every other text.
pub open spec fn gwp_unit_of(s: Seq<char>) -> GwpUnits {
    if same_but_for_case(s, "kgco2e"@) {
        GwpUnits::KgCO2e
    } else {
        GwpUnits::Unknown
    }
}

impl GwpUnits {
    /// Reads a unit. It never fails: what is not recognised is `Unknown`.
    pub fn from_str(s: &str) -> (r: Result<GwpUnits, ()>)
        ensures
            r == Ok::<GwpUnits, ()>(gwp_unit_of(s@)),
    {
        if equal_but_for_case(s, "kgco2e") {
            Ok(GwpUnits::KgCO2e)
        } else {
            Ok(GwpUnits::Unknown)
        }
    }

    pub open spec fn spec_name(&self) -> Seq<char> {
        match *self {
            GwpUnits::KgCO2e => "KgCO2e"@,
            GwpUnits::Unknown => "Unknown"@,
        }
    }

    /// The unit's name, which `from_str` reads back.
    pub fn name(&self) -> (s: &'static str)
        ensures
            s@ == self.spec_name(),
    {
        match self {
            GwpUnits::KgCO2e => "KgCO2e",
            GwpUnits::Unknown => "Unknown",
        }
    }
}

/// The physical quantity that a declared unit is measured in.
#[derive(Clone, Copy, Debug, PartialEq, Eq, Structural)]
pub enum Unit {
    Kg,
    M,
    M2,
    M3,
    Unknown,
}

/// The unit that a spelling stands for, in either case of its first letter.
pub open spec fn unit_of(s: Seq<char>) -> Unit {
    if s == "Kg"@ || s == "kg"@ {
        Unit::Kg
    } else if s == "M"@ || s == "m"@ {
        Unit::M
    } else if s == "M2"@ || s == "m2"@ {
        Unit::M2
    } else if s == "M3"@ || s == "m3"@ {
        Unit::M3
    } else {
        Unit::Unknown
    }
}

impl Unit {
    /// Reads a unit. It never fails: what is not recognised is `Unknown`.
    pub fn from_str(s: &str) -> (r: Result<Unit, ()>)
        ensures
            r == Ok::<Unit, ()>(unit_of(s@)),
    {
        if same_text(s, "Kg") || same_text(s, "kg") {
            Ok(Unit::Kg)
        } else if same_text(s, "M") || same_text(s, "m") {
            Ok(Unit::M)
        } else if same_text(s, "M2") || same_text(s, "m2") {
            Ok(Unit::M2)
        } else if same_text(s, "M3") || same_text(s, "m3") {
            Ok(Unit::M3)
        } else {
            Ok(Unit::Unknown)
        }
    }

    pub open spec fn spec_name(&self) -> Seq<char> {
        match *self {
            Unit::Kg => "Kg"@,
            Unit::M => "M"@,
            Unit::M2 => "M2"@,
            Unit::M3 => "M3"@,
            Unit::Unknown => "Unknown"@,
        }
    }

    /// The unit's name, which `from_str` reads back.
    pub fn name(&self) -> (s: &'static str)
        ensures
            s@ == self.spec_name(),
    {
        match self {
            Unit::Kg => "Kg",
            Unit::M => "M",
            Unit::M2 => "M2",
            Unit::M3 => "M3",
            Unit::Unknown => "Unknown",
        }
    }
}

/// A global-warming potential: how much, and in which unit.
#[derive(Clone, Debug)]
pub struct Gwp {
    pub value: Number,
    pub unit: GwpUnits,
}

pub struct GwpView {
    pub value: NumberView,
    pub unit: GwpUnits,
}

impl View for Gwp {
    type V = GwpView;

    open spec fn view(&self) -> GwpView {
        GwpView { value: self.value@, unit: self.unit }
    }
}

/// What a text of the form number, space, unit reads as. The number is what
/// stands before the first space, the unit what stands behind it.
pub open spec fn gwp_of(s: Seq<char>) -> Result<GwpView, ApiError> {
    if exists|at: int| is_first_at(s, ' ', at) {
        let at = choose|at: int| is_first_at(s, ' ', at);
        let number = s.subrange(0, at);
        let unit = s.subrange(at + 1, s.len() as int);
        match real_bits(number) {
            Some(bits) => Ok(
                GwpView { value: NumberView { bits, text: number }, unit: gwp_unit_of(unit) },
            ),
            None => Err(ApiError::GwpError),
        }
    } else {
        Err(ApiError::GwpError)
    }
}

/// The first position of a character is one position.
pub proof fn lemma_first_at_unique(s: Seq<char>, c: char, a: int, b: int)
    requires
        is_first_at(s, c, a),
        is_first_at(s, c, b),
    ensures
        a == b,
{
}

impl Gwp {
    pub open spec fn wf(&self) -> bool {
        self.value.wf()
    }

    /// Reads a potential such as `12.5 KgCO2e`. It fails with `GwpError` where
    /// the text holds no space or no number stands before its first space.
    pub fn from_str(s: &str) -> (r: Result<Gwp, ApiError>)
        ensures
            match r {
                Ok(g) => gwp_of(s@) == Ok::<GwpView, ApiError>(g@) && g.wf(),
                Err(e) => gwp_of(s@) == Err::<GwpView, ApiError>(e),
            },
    {
        match split_at_first(s, ' ') {
            None => Err(ApiError::GwpError),
            Some((x, y)) => {
                proof {
                    let at = choose|at: int| is_first_at(s@, ' ', at);
                    let seen = choose|at: int|
                        is_first_at(s@, ' ', at) && x@ == s@.subrange(0, at) && y@ == s@.subrange(
                            at + 1,
                            s@.len() as int,
                        );
                    lemma_first_at_unique(s@, ' ', at, seen);
                }
                match Number::parse(x) {
                    None => Err(ApiError::GwpError),
                    Some(value) => {
                        let unit = match GwpUnits::from_str(y) {
                            Ok(u) => u,
                            Err(_) => GwpUnits::Unknown,
                        };
                        Ok(Gwp { value, unit })
                    },
                }
            },
        }
    }

    /// Zero of an unknown unit: what stands for a potential that could not be
    /// read.
    pub fn unknown() -> (g: Gwp)
        ensures
            g@ == (GwpView {
                value: NumberView { bits: 0, text: "0"@ },
                unit: GwpUnits::Unknown,
            }),
            g.wf(),
    {
        Gwp { value: Number::zero(), unit: GwpUnits::Unknown }
    }

    /// The potential as text: the number, a space and the unit's name.
    pub fn as_str(&self) -> (s: String)
        ensures
            s@ == self@.value.text + " "@ + self.unit.spec_name(),
    {
        let mut s = joined(self.value.text(), " ");
        s.append(self.unit.name());
        s
    }

    /// A copy.
    pub fn duplicate(&self) -> (g: Gwp)
        ensures
            g@ == self@,
    {
        Gwp { value: self.value.duplicate(), unit: self.unit }
    }
}

impl Default for Gwp {
    /// Zero kilograms of carbon dioxide equivalent.
    fn default() -> (g: Gwp)
        ensures
            g@.value.bits == 0,
            g@.value.text == "0"@,
            g@.unit == GwpUnits::KgCO2e,
            g.wf(),
    {
        Gwp { value: Number::zero(), unit: GwpUnits::KgCO2e }
    }
}

/// The quantity for which a potential is declared, such as one and a half
/// kilograms.
#[derive(Clone, Debug)]
pub struct DeclaredUnit {
    pub value: Number,
    pub unit: Unit,
}

pub struct DeclaredUnitView {
    pub value: NumberView,
    pub unit: Unit,
}

impl View for DeclaredUnit {
    type V = DeclaredUnitView;

    open spec fn view(&self) -> DeclaredUnitView {
        DeclaredUnitView { value: self.value@, unit: self.unit }
    }
}

/// What a text of the form number, space, unit reads as a declared unit.
/// `None` where the text holds no space or no number stands before the first
/// one.
pub open spec fn declared_unit_of(s: Seq<char>) -> Option<DeclaredUnitView> {
    if exists|at: int| is_first_at(s, ' ', at) {
        let at = choose|at: int| is_first_at(s, ' ', at);
        let number = s.subrange(0, at);
        let unit = s.subrange(at + 1, s.len() as int);
        match real_bits(number) {
            Some(bits) => Some(
                DeclaredUnitView { value: NumberView { bits, text: number }, unit: unit_of(unit) },
            ),
            None => None,
        }
    } else {
        None
    }
}

impl DeclaredUnit {
    pub open spec fn wf(&self) -> bool {
        self.value.wf()
    }

    /// Reads a declared unit such as `1.5 kg`.
    pub fn from_str(s: &str) -> (r: Option<DeclaredUnit>)
        ensures
            match r {
                Some(d) => declared_unit_of(s@) == Some(d@) && d.wf(),
                None => declared_unit_of(s@) is None,
            },
    {
        match split_at_first(s, ' ') {
            None => None,
            Some((x, y)) => {
                proof {
                    let at = choose|at: int| is_first_at(s@, ' ', at);
                    let seen = choose|at: int|
                        is_first_at(s@, ' ', at) && x@ == s@.subrange(0, at) && y@ == s@.subrange(
                            at + 1,
                            s@.len() as int,
                        );
                    lemma_first_at_unique(s@, ' ', at, seen);
                }
                match Number::parse(x) {
                    None => None,
                    Some(value) => {
                        let unit = match Unit::from_str(y) {
                            Ok(u) => u,
                            Err(_) => Unit::Unknown,
                        };
                        Some(DeclaredUnit { value, unit })
                    },
                }
            },
        }
    }

    /// One of an unknown unit: what a material is declared per where nothing
    /// else is known.
    pub fn one() -> (d: DeclaredUnit)
        ensures
            d@ == (DeclaredUnitView {
                value: NumberView { bits: crate::number::ONE_BITS, text: "1"@ },
                unit: Unit::Unknown,
            }),
            d.wf(),
    {
        DeclaredUnit { value: Number::one(), unit: Unit::Unknown }
    }

    /// A copy.
    pub fn duplicate(&self) -> (d: DeclaredUnit)
        ensures
            d@ == self@,
    {
        DeclaredUnit { value: self.value.duplicate(), unit: self.unit }
    }
}

/// The name of a unit of potential reads back as that unit.
pub proof fn lemma_gwp_unit_name_reads_back(u: GwpUnits)
    ensures
        gwp_unit_of(u.spec_name()) == u,
{
    reveal_strlit("KgCO2e");
    reveal_strlit("kgco2e");
    reveal_strlit("Unknown");
    let name = "KgCO2e"@;
    let small = "kgco2e"@;
    assert(name.len() == 6 && small.len() == 6 && "Unknown"@.len() == 7);
    assert(name[0] == 'K' && name[1] == 'g' && name[2] == 'C' && name[3] == 'O' && name[4] == '2'
        && name[5] == 'e');
    assert(small[0] == 'k' && small[1] == 'g' && small[2] == 'c' && small[3] == 'o' && small[4]
        == '2' && small[5] == 'e');
    assert(same_but_for_case(name, small)) by {
        assert forall|i: int| 0 <= i < 6 implies crate::text::lower_code(name[i])
            == crate::text::lower_code(small[i]) by {
            if i == 0 {
            } else if i == 1 {
            } else if i == 2 {
            } else if i == 3 {
            } else if i == 4 {
            } else {
                assert(i == 5);
            }
        }
    }
}

/// The name of a declared unit reads back as that unit.
pub proof fn lemma_unit_name_reads_back(u: Unit)
    ensures
        unit_of(u.spec_name()) == u,
{
    reveal_strlit("Kg");
    reveal_strlit("kg");
    reveal_strlit("M");
    reveal_strlit("m");
    reveal_strlit("M2");
    reveal_strlit("m2");
    reveal_strlit("M3");
    reveal_strlit("m3");
    reveal_strlit("Unknown");
    assert("Kg"@.len() == 2 && "kg"@.len() == 2 && "M"@.len() == 1 && "m"@.len() == 1);
    assert("M2"@.len() == 2 && "m2"@.len() == 2 && "M3"@.len() == 2 && "m3"@.len() == 2);
    assert("Unknown"@.len() == 7);
    assert("Kg"@[0] == 'K' && "kg"@[0] == 'k');
    assert("M2"@[0] == 'M' && "M2"@[1] == '2' && "m2"@[0] == 'm' && "m2"@[1] == '2');
    assert("M3"@[0] == 'M' && "M3"@[1] == '3');
    match u {
        Unit::Kg => {},
        Unit::M => {
            assert("M"@ != "Kg"@ && "M"@ != "kg"@);
        },
        Unit::M2 => {
            assert("M2"@ != "Kg"@ && "M2"@ != "kg"@ && "M2"@ != "M"@ && "M2"@ != "m"@);
        },
        Unit::M3 => {
            assert("M3"@ != "Kg"@ && "M3"@ != "kg"@ && "M3"@ != "M"@ && "M3"@ != "m"@);
            assert("M3"@ != "M2"@ && "M3"@ != "m2"@);
        },
        Unit::Unknown => {
            assert("Unknown"@ != "Kg"@ && "Unknown"@ != "kg"@ && "Unknown"@ != "M"@);
            assert("Unknown"@ != "m"@ && "Unknown"@ != "M2"@ && "Unknown"@ != "m2"@);
            assert("Unknown"@ != "M3"@ && "Unknown"@ != "m3"@);
        },
    }
}

} // verus!
