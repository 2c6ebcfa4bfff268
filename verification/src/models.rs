use vstd::prelude::*;
use vstd::string::*;
use crate::units::{DeclaredUnit, DeclaredUnitView, Gwp, GwpView};

verus! {

/// The text of an optional string, where there is one.
pub open spec fn opt_text(s: Option<String>) -> Option<Seq<char>> {
    match s {
        Some(t) => Some(t@),
        None => None,
    }
}

/// A copy of an optional string.
pub fn copy_opt(s: &Option<String>) -> (r: Option<String>)
    ensures
        opt_text(r) == opt_text(*s),
{
    match s {
        Some(t) => Some(t.clone()),
        None => None,
    }
}

/// Whether two optional strings hold the same text, or both none.
pub fn same_opt(a: &Option<String>, b: &Option<String>) -> (r: bool)
    ensures
        r == (opt_text(*a) == opt_text(*b)),
{
    match (a, b) {
        (Some(x), Some(y)) => *x == *y,
        (None, None) => true,
        _ => false,
    }
}

/// Who makes a material. The name identifies the manufacturer.
#[derive(Debug)]
pub struct Manufacturer {
    pub name: String,
    pub country: Option<String>,
}

pub struct ManufacturerView {
    pub name: Seq<char>,
    pub country: Option<Seq<char>>,
}

impl View for Manufacturer {
    type V = ManufacturerView;

    open spec fn view(&self) -> ManufacturerView {
        ManufacturerView { name: self.name@, country: opt_text(self.country) }
    }
}

impl Manufacturer {
    /// Whether both hold the same name and country.
    pub fn same(&self, other: &Manufacturer) -> (r: bool)
        ensures
            r == (self@ == other@),
    {
        self.name == other.name && same_opt(&self.country, &other.country)
    }

    /// A copy.
    pub fn duplicate(&self) -> (m: Manufacturer)
        ensures
            m@ == self@,
    {
        Manufacturer { name: self.name.clone(), country: copy_opt(&self.country) }
    }
}

/// The category that a material is filed under.
#[derive(Debug)]
pub struct Category {
    pub description: String,
    pub name: String,
    pub display_name: String,
    pub id: String,
}

pub struct CategoryView {
    pub description: Seq<char>,
    pub name: Seq<char>,
    pub display_name: Seq<char>,
    pub id: Seq<char>,
}

impl View for Category {
    type V = CategoryView;

    open spec fn view(&self) -> CategoryView {
        CategoryView {
            description: self.description@,
            name: self.name@,
            display_name: self.display_name@,
            id: self.id@,
        }
    }
}

impl Category {
    /// Whether all four fields agree.
    pub fn same(&self, other: &Category) -> (r: bool)
        ensures
            r == (self@ == other@),
    {
        self.description == other.description && self.name == other.name && self.display_name
            == other.display_name && self.id == other.id
    }

    /// A copy.
    pub fn duplicate(&self) -> (c: Category)
        ensures
            c@ == self@,
    {
        Category {
            description: self.description.clone(),
            name: self.name.clone(),
            display_name: self.display_name.clone(),
            id: self.id.clone(),
        }
    }
}

/// A material with its global-warming potential.
#[derive(Debug)]
pub struct Ec3Material {
    pub name: String,
    pub gwp: Gwp,
    pub image: Option<String>,
    pub manufacturer: Manufacturer,
    pub description: String,
    pub category: Category,
    pub id: String,
    pub declared_unit: DeclaredUnit,
}

pub struct Ec3MaterialView {
    pub name: Seq<char>,
    pub gwp: GwpView,
    pub image: Option<Seq<char>>,
    pub manufacturer: ManufacturerView,
    pub description: Seq<char>,
    pub category: CategoryView,
    pub id: Seq<char>,
    pub declared_unit: DeclaredUnitView,
}

impl View for Ec3Material {
    type V = Ec3MaterialView;

    open spec fn view(&self) -> Ec3MaterialView {
        Ec3MaterialView {
            name: self.name@,
            gwp: self.gwp@,
            image: opt_text(self.image),
            manufacturer: self.manufacturer@,
            description: self.description@,
            category: self.category@,
            id: self.id@,
            declared_unit: self.declared_unit@,
        }
    }
}

impl Ec3Material {
    /// Both numbers of the material are well formed.
    pub open spec fn wf(&self) -> bool {
        self.gwp.wf() && self.declared_unit.wf()
    }

    /// A copy.
    pub fn duplicate(&self) -> (m: Ec3Material)
        ensures
            m@ == self@,
            m.wf() == self.wf(),
    {
        Ec3Material {
            name: self.name.clone(),
            gwp: self.gwp.duplicate(),
            image: copy_opt(&self.image),
            manufacturer: self.manufacturer.duplicate(),
            description: self.description.clone(),
            category: self.category.duplicate(),
            id: self.id.clone(),
            declared_unit: self.declared_unit.duplicate(),
        }
    }
}

/// The views of a list of materials.
pub open spec fn material_views(v: Seq<Ec3Material>) -> Seq<Ec3MaterialView> {
    Seq::new(v.len(), |i: int| v[i]@)
}

/// A category as the service lists it, with the category above it.
#[derive(Debug)]
pub struct Ec3Category {
    pub id: String,
    pub name: String,
    pub display_name: String,
    pub description: String,
    pub parent_id: Option<String>,
    pub declared_unit: DeclaredUnit,
}

pub struct Ec3CategoryView {
    pub id: Seq<char>,
    pub name: Seq<char>,
    pub display_name: Seq<char>,
    pub description: Seq<char>,
    pub parent_id: Option<Seq<char>>,
    pub declared_unit: DeclaredUnitView,
}

impl View for Ec3Category {
    type V = Ec3CategoryView;

    open spec fn view(&self) -> Ec3CategoryView {
        Ec3CategoryView {
            id: self.id@,
            name: self.name@,
            display_name: self.display_name@,
            description: self.description@,
            parent_id: opt_text(self.parent_id),
            declared_unit: self.declared_unit@,
        }
    }
}

} // verus!
