//! Mappings between virtual and physical resources, tracked as one
//! relation queried from either side or by tenant.
use vstd::prelude::*;
use crate::clock::now_millis;
use crate::models::CustomField;
use crate::strutil::str_eq;
use crate::virtual_models::VirtualResourceType;

verus! {

/// How many resources stand on each side of a mapping.
#[derive(Debug, Clone, Copy, PartialEq, Eq, Hash, Structural)]
pub enum MappingType {
    OneToOne,
    OneToMany,
    ManyToOne,
    ManyToMany,
}

/// Errors of the mapping manager.
#[derive(Debug, Clone, Copy, PartialEq, Eq, Hash, Structural)]
pub enum MappingError {
    MappingNotFound,
    InvalidMapping,
}

impl MappingError {
    /// A human-readable description of the error.
    pub fn message(&self) -> (r: String)
        ensures
            *self == MappingError::MappingNotFound ==> r@ == "Mapping not found"@,
            *self == MappingError::InvalidMapping ==> r@ == "Invalid mapping"@,
    {
        match self {
            MappingError::MappingNotFound => String::from_str("Mapping not found"),
            MappingError::InvalidMapping => String::from_str("Invalid mapping"),
        }
    }
}

/// One mapping between a virtual and a physical resource.
#[derive(Debug)]
pub struct ResourceMapping {
    pub virtual_id: String,
    pub virtual_type: VirtualResourceType,
    pub physical_id: i32,
    pub physical_type: VirtualResourceType,
    pub tenant_id: String,
    pub mapping_type: MappingType,
    pub metadata: Vec<CustomField>,
    pub created_at: u64,
}

/// The mathematical content of one mapping.
pub struct MappingContent {
    pub virtual_id: Seq<char>,
    pub virtual_type: VirtualResourceType,
    pub physical_id: i32,
    pub physical_type: VirtualResourceType,
    pub tenant_id: Seq<char>,
    pub mapping_type: MappingType,
    pub created_at: u64,
}

impl View for ResourceMapping {
    type V = MappingContent;

    open spec fn view(&self) -> MappingContent {
        MappingContent {
            virtual_id: self.virtual_id@,
            virtual_type: self.virtual_type,
            physical_id: self.physical_id,
            physical_type: self.physical_type,
            tenant_id: self.tenant_id@,
            mapping_type: self.mapping_type,
            created_at: self.created_at,
        }
    }
}

impl Clone for ResourceMapping {
    fn clone(&self) -> (r: Self)
        ensures
            r@ == self@,
    {
        let mut metadata: Vec<CustomField> = Vec::new();
        let mut i: usize = 0;
        while i < self.metadata.len()
            invariant
                i <= self.metadata@.len(),
            decreases self.metadata@.len() - i,
        {
            metadata.push(self.metadata[i].clone());
            i += 1;
        }
        ResourceMapping {
            virtual_id: self.virtual_id.clone(),
            virtual_type: self.virtual_type,
            physical_id: self.physical_id,
            physical_type: self.physical_type,
            tenant_id: self.tenant_id.clone(),
            mapping_type: self.mapping_type,
            metadata,
            created_at: self.created_at,
        }
    }
}

/// Tracks every mapping between virtual and physical resources.
pub struct MappingManager {
    mappings: Vec<ResourceMapping>,
}

impl MappingManager {
    /// The mappings, in creation order.
    pub closed spec fn entries(self) -> Seq<MappingContent> {
        self.mappings@.map_values(|m: ResourceMapping| m@)
    }

    pub fn new() -> (r: Self)
        ensures
            r.entries() == Seq::<MappingContent>::empty(),
    {
        let r = MappingManager { mappings: Vec::new() };
        proof {
            assert(r.entries() =~= Seq::<MappingContent>::empty());
        }
        r
    }

    /// Record a mapping between a virtual and a physical resource.
    pub fn create_mapping(
        &mut self,
        virtual_id: String,
        virtual_type: VirtualResourceType,
        physical_id: i32,
        physical_type: VirtualResourceType,
        tenant_id: String,
        mapping_type: MappingType,
    ) -> (r: ResourceMapping)
        ensures
            r@.virtual_id == virtual_id@,
            r@.virtual_type == virtual_type,
            r@.physical_id == physical_id,
            r@.physical_type == physical_type,
            r@.tenant_id == tenant_id@,
            r@.mapping_type == mapping_type,
            final(self).entries() == old(self).entries().push(r@),
    {
        let now = now_millis();
        let mapping = ResourceMapping {
            virtual_id,
            virtual_type,
            physical_id,
            physical_type,
            tenant_id,
            mapping_type,
            metadata: Vec::new(),
            created_at: now,
        };
        let copy = mapping.clone();
        self.mappings.push(mapping);
        proof {
            assert(self.entries() =~= old(self).entries().push(copy@));
        }
        copy
    }

    /// The mappings of a virtual resource, in creation order.
    pub fn get_physical_resources(&self, virtual_id: &str) -> (r: Vec<ResourceMapping>)
        ensures
            r@.map_values(|m: ResourceMapping| m@) == self.entries().filter(
                |m: MappingContent| m.virtual_id == virtual_id@,
            ),
    {
        let ghost pred = |m: MappingContent| m.virtual_id == virtual_id@;
        let mut out: Vec<ResourceMapping> = Vec::new();
        proof {
            assert(self.entries().take(0) =~= Seq::<MappingContent>::empty());
            reveal_with_fuel(Seq::filter, 1);
        }
        let mut i: usize = 0;
        while i < self.mappings.len()
            invariant
                i <= self.entries().len(),
                out@.map_values(|m: ResourceMapping| m@) == self.entries().take(i as int).filter(
                    pred,
                ),
                pred == (|m: MappingContent| m.virtual_id == virtual_id@),
            decreases self.entries().len() - i,
        {
            let ghost prefix = self.entries().take(i as int);
            proof {
                assert(self.entries().take(i + 1).drop_last() =~= prefix);
                assert(self.entries().take(i + 1).last() == self.entries()[i as int]);
                reveal(Seq::filter);
            }
            if str_eq(self.mappings[i].virtual_id.as_str(), virtual_id) {
                out.push(self.mappings[i].clone());
            }
            proof {
                assert(out@.map_values(|m: ResourceMapping| m@) =~= self.entries().take(
                    i + 1,
                ).filter(pred));
            }
            i += 1;
        }
        proof {
            assert(self.entries().take(self.entries().len() as int) =~= self.entries());
        }
        out
    }

    /// The mappings of a physical resource, in creation order.
    pub fn get_virtual_resources(&self, physical_id: i32) -> (r: Vec<ResourceMapping>)
        ensures
            r@.map_values(|m: ResourceMapping| m@) == self.entries().filter(
                |m: MappingContent| m.physical_id == physical_id,
            ),
    {
        let ghost pred = |m: MappingContent| m.physical_id == physical_id;
        let mut out: Vec<ResourceMapping> = Vec::new();
        proof {
            assert(self.entries().take(0) =~= Seq::<MappingContent>::empty());
            reveal_with_fuel(Seq::filter, 1);
        }
        let mut i: usize = 0;
        while i < self.mappings.len()
            invariant
                i <= self.entries().len(),
                out@.map_values(|m: ResourceMapping| m@) == self.entries().take(i as int).filter(
                    pred,
                ),
                pred == (|m: MappingContent| m.physical_id == physical_id),
            decreases self.entries().len() - i,
        {
            let ghost prefix = self.entries().take(i as int);
            proof {
                assert(self.entries().take(i + 1).drop_last() =~= prefix);
                assert(self.entries().take(i + 1).last() == self.entries()[i as int]);
                reveal(Seq::filter);
            }
            if self.mappings[i].physical_id == physical_id {
                out.push(self.mappings[i].clone());
            }
            proof {
                assert(out@.map_values(|m: ResourceMapping| m@) =~= self.entries().take(
                    i + 1,
                ).filter(pred));
            }
            i += 1;
        }
        proof {
            assert(self.entries().take(self.entries().len() as int) =~= self.entries());
        }
        out
    }

    /// The mappings of a tenant, in creation order.
    pub fn get_tenant_mappings(&self, tenant_id: &str) -> (r: Vec<ResourceMapping>)
        ensures
            r@.map_values(|m: ResourceMapping| m@) == self.entries().filter(
                |m: MappingContent| m.tenant_id == tenant_id@,
            ),
    {
        let ghost pred = |m: MappingContent| m.tenant_id == tenant_id@;
        let mut out: Vec<ResourceMapping> = Vec::new();
        proof {
            assert(self.entries().take(0) =~= Seq::<MappingContent>::empty());
            reveal_with_fuel(Seq::filter, 1);
        }
        let mut i: usize = 0;
        while i < self.mappings.len()
            invariant
                i <= self.entries().len(),
                out@.map_values(|m: ResourceMapping| m@) == self.entries().take(i as int).filter(
                    pred,
                ),
                pred == (|m: MappingContent| m.tenant_id == tenant_id@),
            decreases self.entries().len() - i,
        {
            let ghost prefix = self.entries().take(i as int);
            proof {
                assert(self.entries().take(i + 1).drop_last() =~= prefix);
                assert(self.entries().take(i + 1).last() == self.entries()[i as int]);
                reveal(Seq::filter);
            }
            if str_eq(self.mappings[i].tenant_id.as_str(), tenant_id) {
                out.push(self.mappings[i].clone());
            }
            proof {
                assert(out@.map_values(|m: ResourceMapping| m@) =~= self.entries().take(
                    i + 1,
                ).filter(pred));
            }
            i += 1;
        }
        proof {
            assert(self.entries().take(self.entries().len() as int) =~= self.entries());
        }
        out
    }

    /// Remove every mapping between the virtual and the physical
    /// resource.
    pub fn remove_mapping(&mut self, virtual_id: &str, physical_id: i32) -> (r: Result<
        (),
        MappingError,
    >)
        ensures
            r is Ok,
            final(self).entries() == old(self).entries().filter(
                |m: MappingContent| !(m.virtual_id == virtual_id@ && m.physical_id == physical_id),
            ),
    {
        let ghost pred = |m: MappingContent|
            !(m.virtual_id == virtual_id@ && m.physical_id == physical_id);
        let mut out: Vec<ResourceMapping> = Vec::new();
        proof {
            assert(old(self).entries().take(0) =~= Seq::<MappingContent>::empty());
            reveal_with_fuel(Seq::filter, 1);
        }
        let n = self.mappings.len();
        let mut i: usize = 0;
        while i < n
            invariant
                n == old(self).entries().len(),
                *self == *old(self),
                i <= n,
                out@.map_values(|m: ResourceMapping| m@) == old(self).entries().take(
                    i as int,
                ).filter(pred),
                pred == (|m: MappingContent|
                    !(m.virtual_id == virtual_id@ && m.physical_id == physical_id)),
            decreases n - i,
        {
            let ghost prefix = old(self).entries().take(i as int);
            proof {
                assert(old(self).entries().take(i + 1).drop_last() =~= prefix);
                assert(old(self).entries().take(i + 1).last() == old(self).entries()[i as int]);
                reveal(Seq::filter);
            }
            let matches_pair = str_eq(self.mappings[i].virtual_id.as_str(), virtual_id)
                && self.mappings[i].physical_id == physical_id;
            if !matches_pair {
                out.push(self.mappings[i].clone());
            }
            proof {
                assert(out@.map_values(|m: ResourceMapping| m@) =~= old(self).entries().take(
                    i + 1,
                ).filter(pred));
            }
            i += 1;
        }
        self.mappings = out;
        proof {
            assert(old(self).entries().take(n as int) =~= old(self).entries());
        }
        Ok(())
    }

    /// Whether a virtual resource maps to anything.
    pub fn has_physical_mapping(&self, virtual_id: &str) -> (r: bool)
        ensures
            r == (self.entries().filter(|m: MappingContent| m.virtual_id == virtual_id@).len() > 0),
    {
        let found = self.get_physical_resources(virtual_id);
        found.len() > 0
    }

    /// Whether a physical resource maps to anything.
    pub fn has_virtual_mapping(&self, physical_id: i32) -> (r: bool)
        ensures
            r == (self.entries().filter(|m: MappingContent| m.physical_id == physical_id).len() > 0),
    {
        let found = self.get_virtual_resources(physical_id);
        found.len() > 0
    }

    /// How many mappings a virtual resource has.
    pub fn get_mapping_count(&self, virtual_id: &str) -> (r: usize)
        ensures
            r == self.entries().filter(|m: MappingContent| m.virtual_id == virtual_id@).len(),
    {
        let found = self.get_physical_resources(virtual_id);
        found.len()
    }
}

} // verus!
