use vstd::prelude::*;
use vstd::string::*;
use crate::material_db::{get_category_avg, StoreError};
use crate::models::Ec3Material;
use crate::number::{Number, NumberView, ONE_BITS};
use crate::units::{DeclaredUnit, DeclaredUnitView, Gwp, GwpUnits, GwpView, Unit};

verus! {

/// How a material's potential compares with the average of its category.
#[derive(Clone, Copy, Debug, PartialEq, Eq, Structural)]
pub enum CmpResult {
    AlmostEqual,
    Greater,
    Smaller,
}

/// What an estimate needs of a material.
pub trait Material {
    spec fn spec_unit(&self) -> DeclaredUnitView;

    spec fn spec_gwp(&self) -> GwpView;

    spec fn spec_name(&self) -> Seq<char>;

    fn get_unit(&self) -> (u: &DeclaredUnit)
        ensures
            u@ == self.spec_unit(),
    ;

    fn get_gwp(&self) -> (g: &Gwp)
        ensures
            g@ == self.spec_gwp(),
    ;

    fn get_name(&self) -> (n: &str)
        ensures
            n@ == self.spec_name(),
    ;
}

impl Material for Ec3Material {
    open spec fn spec_unit(&self) -> DeclaredUnitView {
        self@.declared_unit
    }

    open spec fn spec_gwp(&self) -> GwpView {
        self@.gwp
    }

    open spec fn spec_name(&self) -> Seq<char> {
        self@.name
    }

    fn get_unit(&self) -> (u: &DeclaredUnit) {
        &self.declared_unit
    }

    fn get_gwp(&self) -> (g: &Gwp) {
        &self.gwp
    }

    fn get_name(&self) -> (n: &str) {
        self.name.as_str()
    }
}

/// A material that stands for a whole category, with the category's average
/// potential.
#[derive(Debug)]
pub struct UMaterial {
    pub name: String,
    pub gwp: Gwp,
    pub unit: DeclaredUnit,
}

pub struct UMaterialView {
    pub name: Seq<char>,
    pub gwp: GwpView,
    pub unit: DeclaredUnitView,
}

impl View for UMaterial {
    type V = UMaterialView;

    open spec fn view(&self) -> UMaterialView {
        UMaterialView { name: self.name@, gwp: self.gwp@, unit: self.unit@ }
    }
}

impl UMaterial {
    /// The material that stands for a category whose average is `average`:
    /// it has the category's name, the average in kilograms of carbon dioxide
    /// equivalent, and is declared per one of an unknown unit.
    pub fn of_average(category: &str, average: Number) -> (m: UMaterial)
        ensures
            m@ == (UMaterialView {
                name: category@,
                gwp: GwpView { value: average@, unit: GwpUnits::KgCO2e },
                unit: DeclaredUnitView {
                    value: NumberView { bits: ONE_BITS, text: "1"@ },
                    unit: Unit::Unknown,
                },
            }),
    {
        UMaterial {
            name: String::from_str(category),
            gwp: Gwp { value: average, unit: GwpUnits::KgCO2e },
            unit: DeclaredUnit { value: Number::one(), unit: Unit::Unknown },
        }
    }

    /// The material that stands for the category named `category`, with the
    /// average that the store gives for it, and zero where the store fails.
    pub fn get_from_db(conn: &rusqlite::Connection, category: &str) -> (m: UMaterial)
        ensures
            m@.name == category@,
            m@.gwp.unit == GwpUnits::KgCO2e,
            m.gwp.wf(),
            m@.unit == (DeclaredUnitView {
                value: NumberView { bits: ONE_BITS, text: "1"@ },
                unit: Unit::Unknown,
            }),
    {
        let average = average_or_zero(get_category_avg(conn, category));
        UMaterial::of_average(category, average)
    }
}

/// The average that the store answered with, and zero where it failed: zero
/// stands for "no data".
pub fn average_or_zero(answer: Result<Number, StoreError>) -> (average: Number)
    ensures
        match answer {
            Ok(n) => average == n,
            Err(_) => average@ == (NumberView { bits: 0, text: "0"@ }) && average.wf(),
        },
{
    match answer {
        Ok(n) => n,
        Err(_) => Number::zero(),
    }
}

impl Material for UMaterial {
    open spec fn spec_unit(&self) -> DeclaredUnitView {
        self@.unit
    }

    open spec fn spec_gwp(&self) -> GwpView {
        self@.gwp
    }

    open spec fn spec_name(&self) -> Seq<char> {
        self@.name
    }

    fn get_unit(&self) -> (u: &DeclaredUnit) {
        &self.unit
    }

    fn get_gwp(&self) -> (g: &Gwp) {
        &self.gwp
    }

    fn get_name(&self) -> (n: &str) {
        self.name.as_str()
    }
}

/// The material of a component: one from the store, or one that stands for a
/// category.
#[derive(Debug)]
pub enum ComponentMaterial {
    Cached(Ec3Material),
    Average(UMaterial),
}

impl Material for ComponentMaterial {
    open spec fn spec_unit(&self) -> DeclaredUnitView {
        match *self {
            ComponentMaterial::Cached(m) => m.spec_unit(),
            ComponentMaterial::Average(m) => m.spec_unit(),
        }
    }

    open spec fn spec_gwp(&self) -> GwpView {
        match *self {
            ComponentMaterial::Cached(m) => m.spec_gwp(),
            ComponentMaterial::Average(m) => m.spec_gwp(),
        }
    }

    open spec fn spec_name(&self) -> Seq<char> {
        match *self {
            ComponentMaterial::Cached(m) => m.spec_name(),
            ComponentMaterial::Average(m) => m.spec_name(),
        }
    }

    fn get_unit(&self) -> (u: &DeclaredUnit) {
        match self {
            ComponentMaterial::Cached(m) => m.get_unit(),
            ComponentMaterial::Average(m) => m.get_unit(),
        }
    }

    fn get_gwp(&self) -> (g: &Gwp) {
        match self {
            ComponentMaterial::Cached(m) => m.get_gwp(),
            ComponentMaterial::Average(m) => m.get_gwp(),
        }
    }

    fn get_name(&self) -> (n: &str) {
        match self {
            ComponentMaterial::Cached(m) => m.get_name(),
            ComponentMaterial::Average(m) => m.get_name(),
        }
    }
}

/// One entry of a project: a material, how much of it, what that amounts to,
/// and the average of the material's category.
#[derive(Debug)]
pub struct Component {
    pub quantity: Number,
    pub calculated: Number,
    pub material: ComponentMaterial,
    pub category_avg: Number,
}

/// A list of components and the potential that they add up to.
#[derive(Debug)]
pub struct Project {
    pub components: Vec<Component>,
    pub calculated_gwp: Number,
}

impl Project {
    /// A project without components, which amounts to zero.
    pub fn new() -> (p: Project)
        ensures
            p.components@.len() == 0,
            p.calculated_gwp@.bits == 0,
    {
        Project { components: Vec::new(), calculated_gwp: Number::zero() }
    }

    /// Adds a material from the store behind the components already there,
    /// with no quantity yet.
    pub fn add_component(&mut self, selected: Ec3Material, category_avg: Number)
        ensures
            final(self).components@.len() == old(self).components@.len() + 1,
            final(self).components@.drop_last() == old(self).components@,
            final(self).components@.last().material == ComponentMaterial::Cached(selected),
            final(self).components@.last().category_avg == category_avg,
            final(self).components@.last().quantity@.bits == 0,
            final(self).components@.last().calculated@.bits == 0,
            final(self).calculated_gwp == old(self).calculated_gwp,
    {
        self.components.push(
            Component {
                quantity: Number::zero(),
                calculated: Number::zero(),
                material: ComponentMaterial::Cached(selected),
                category_avg,
            },
        );
        assert(self.components@.drop_last() =~= old(self).components@);
    }

    /// Adds the material that stands for the category named `cat` behind the
    /// components already there, with no quantity yet. Its potential is the
    /// category's average.
    pub fn add_generic_comp(&mut self, conn: &rusqlite::Connection, cat: &str)
        ensures
            final(self).components@.len() == old(self).components@.len() + 1,
            final(self).components@.drop_last() == old(self).components@,
            final(self).components@.last().material is Average,
            final(self).components@.last().material.spec_name() == cat@,
            final(self).components@.last().material.spec_gwp().value == final(self).components@.last().category_avg@,
            final(self).components@.last().quantity@.bits == 0,
            final(self).components@.last().calculated@.bits == 0,
            final(self).calculated_gwp == old(self).calculated_gwp,
    {
        let material = UMaterial::get_from_db(conn, cat);
        let category_avg = material.gwp.value.duplicate();
        self.components.push(
            Component {
                quantity: Number::zero(),
                calculated: Number::zero(),
                material: ComponentMaterial::Average(material),
                category_avg,
            },
        );
        assert(self.components@.drop_last() =~= old(self).components@);
    }
}

} // verus!
