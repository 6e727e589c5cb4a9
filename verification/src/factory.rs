//! The entry point: a factory constructed for one isolation kind and one
//! capability tier, answering system font collection queries tier by tier.

use vstd::prelude::*;

use crate::error::Error;
use crate::font::TableView;
use crate::font_collection::FontCollection;
use crate::font_family::FontFamilyModel;
use crate::MAX_CAPABILITY_TIER;

verus! {

/// Whether a factory shares the process-wide caches or keeps private ones.
#[derive(Debug, Clone, Copy, PartialEq, Eq, Hash, Structural)]
pub enum FactoryType {
    /// Private per-instance caches.
    Isolated,
    /// The process-wide cache.
    Shared,
}

/// The native code of each isolation kind.
pub open spec fn factory_type_code(t: FactoryType) -> i32 {
    match t {
        FactoryType::Isolated => 1,
        FactoryType::Shared => 0,
    }
}

impl FactoryType {
    /// The numeric code the native enumeration assigns to this kind.
    pub fn native_code(self) -> (r: i32)
        ensures
            r == factory_type_code(self),
    {
        match self {
            FactoryType::Isolated => 1,
            FactoryType::Shared => 0,
        }
    }
}

/// The mathematical content of a factory.
pub struct FactoryView {
    pub factory_type: FactoryType,
    pub supported_tier: u8,
    pub system: Seq<Seq<Seq<TableView>>>,
}

/// The text-system entry point: one isolation kind, the capability tier the
/// runtime environment supports, and the system font set captured for it.
pub struct Factory {
    factory_type: FactoryType,
    supported_tier: u8,
    system: FontCollection,
}

impl View for Factory {
    type V = FactoryView;

    closed spec fn view(&self) -> FactoryView {
        FactoryView {
            factory_type: self.factory_type,
            supported_tier: self.supported_tier,
            system: self.system@,
        }
    }
}

impl Factory {
    /// A factory of the given kind, supporting every capability tier up to
    /// `supported_tier`, over the captured system font set.
    ///
    /// A claimed tier above [`MAX_CAPABILITY_TIER`] names no capability this
    /// wrapper knows, so no factory can be initialized for it.
    pub fn new(factory_type: FactoryType, supported_tier: u8, system: FontCollection) -> (r: Result<
        Factory,
        Error,
    >)
        ensures
            supported_tier <= MAX_CAPABILITY_TIER ==> (r matches Ok(f) && f@ == (FactoryView {
                factory_type,
                supported_tier,
                system: system@,
            })),
            supported_tier > MAX_CAPABILITY_TIER ==> r == Err::<Factory, Error>(Error::Creation),
    {
        if supported_tier > MAX_CAPABILITY_TIER {
            return Err(Error::Creation);
        }
        Ok(Factory { factory_type, supported_tier, system })
    }

    /// The isolation kind this factory was created with.
    pub fn factory_type(&self) -> (r: FactoryType)
        ensures
            r == self@.factory_type,
    {
        self.factory_type
    }

    /// The highest capability tier this factory supports.
    pub fn supported_tier(&self) -> (r: u8)
        ensures
            r == self@.supported_tier,
    {
        self.supported_tier
    }

    /// Whether the given capability tier is available.
    pub fn supports_tier(&self, tier: u8) -> (r: bool)
        ensures
            r == (tier <= self@.supported_tier),
    {
        tier <= self.supported_tier
    }

    /// The system font collection under the base capability tier.
    ///
    /// In the snapshot model the captured set is returned as it stands;
    /// `check_for_updates` records the caller's wish to refresh the cached
    /// set before the snapshot is taken.
    pub fn get_system_font_collection(&self, check_for_updates: bool) -> (r: Result<
        &FontCollection,
        Error,
    >)
        ensures
            (r matches Ok(c) && c@ == self@.system),
    {
        let _ = check_for_updates;
        Ok(&self.system)
    }

    /// The system font collection under capability tier 1, which can add
    /// downloadable fonts to the result set.
    pub fn get_system_font_collection1(
        &self,
        include_downloadable_fonts: bool,
        check_for_updates: bool,
    ) -> (r: Result<&FontCollection, Error>)
        ensures
            self@.supported_tier >= 1 ==> (r matches Ok(c) && c@ == self@.system),
            self@.supported_tier < 1 ==> r == Err::<&FontCollection, Error>(
                Error::UnsupportedCapability,
            ),
    {
        let _ = include_downloadable_fonts;
        let _ = check_for_updates;
        if self.supported_tier < 1 {
            return Err(Error::UnsupportedCapability);
        }
        Ok(&self.system)
    }

    /// The system font collection under capability tier 2, which controls
    /// how face variants are grouped into families.
    pub fn get_system_font_collection2(
        &self,
        include_downloadable_fonts: bool,
        font_family_model: FontFamilyModel,
    ) -> (r: Result<&FontCollection, Error>)
        ensures
            self@.supported_tier >= 2 ==> (r matches Ok(c) && c@ == self@.system),
            self@.supported_tier < 2 ==> r == Err::<&FontCollection, Error>(
                Error::UnsupportedCapability,
            ),
    {
        let _ = include_downloadable_fonts;
        let _ = font_family_model;
        if self.supported_tier < 2 {
            return Err(Error::UnsupportedCapability);
        }
        Ok(&self.system)
    }

    /// The system font collection under capability tier 3: the same query
    /// as tier 2, owed only by the newest native interface revision.
    pub fn get_system_font_collection3(
        &self,
        include_downloadable_fonts: bool,
        font_family_model: FontFamilyModel,
    ) -> (r: Result<&FontCollection, Error>)
        ensures
            self@.supported_tier >= 3 ==> (r matches Ok(c) && c@ == self@.system),
            self@.supported_tier < 3 ==> r == Err::<&FontCollection, Error>(
                Error::UnsupportedCapability,
            ),
    {
        let _ = include_downloadable_fonts;
        let _ = font_family_model;
        if self.supported_tier < 3 {
            return Err(Error::UnsupportedCapability);
        }
        Ok(&self.system)
    }
}

} // verus!
