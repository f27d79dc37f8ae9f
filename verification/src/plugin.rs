//! The order-type plugin layer: payloads, resource requests and results
//! as tagged sums, and the registry that maps order-type names to their
//! processors.
use vstd::prelude::*;
use crate::domain::CreateSiteOrder;
use crate::errors::AppError;
use crate::models::{CreateSiteRequest, NetBoxSite, CustomField};
use crate::processors::SiteOrderProcessor;
use crate::strutil::str_eq;

verus! {

/// The name of an order type.
pub type OrderType = String;

/// An order a tenant submitted, tagged by its type.
#[derive(Debug)]
pub enum OrderPayload {
    Site(CreateSiteOrder),
}

impl OrderPayload {
    /// The name of this payload's order type.
    pub fn order_type(&self) -> (r: &'static str)
        ensures
            r@ == "site"@,
    {
        match self {
            OrderPayload::Site(_) => "site",
        }
    }
}

/// A creation request bound for the inventory, tagged by resource type.
#[derive(Debug)]
pub enum NetBoxResourceRequest {
    Site(CreateSiteRequest),
}

impl NetBoxResourceRequest {
    /// The name of this request's resource type.
    pub fn resource_type(&self) -> (r: &'static str)
        ensures
            r@ == "site"@,
    {
        match self {
            NetBoxResourceRequest::Site(_) => "site",
        }
    }
}

/// A resource the inventory returned, tagged by resource type.
#[derive(Debug)]
pub enum NetBoxResource {
    Site(NetBoxSite),
}

impl NetBoxResource {
    /// The inventory id of the resource, if assigned.
    pub fn resource_id(&self) -> (r: Option<i32>)
        ensures
            self matches NetBoxResource::Site(s) ==> r == s@.id,
    {
        match self {
            NetBoxResource::Site(site) => site.id,
        }
    }

    /// The name of this resource's type.
    pub fn resource_type(&self) -> (r: &'static str)
        ensures
            r@ == "site"@,
    {
        match self {
            NetBoxResource::Site(_) => "site",
        }
    }
}

/// The registry of order processors, keyed by order-type name, with a
/// default order type for callers that give none.
pub struct OrderTypeRegistry {
    processors: Vec<(String, SiteOrderProcessor)>,
    default_order_type: String,
}

/// The first processor registered under a name; meaningful only when
/// the name is registered.
pub open spec fn proc_lookup(
    es: Seq<(Seq<char>, SiteOrderProcessor)>,
    t: Seq<char>,
) -> SiteOrderProcessor
    decreases es.len(),
{
    if es.len() == 0 {
        vstd::pervasive::arbitrary()
    } else if es[0].0 == t {
        es[0].1
    } else {
        proc_lookup(es.drop_first(), t)
    }
}

impl OrderTypeRegistry {
    /// The registered processors with their order-type names, in
    /// registration order.
    pub closed spec fn entries(self) -> Seq<(Seq<char>, SiteOrderProcessor)> {
        self.processors@.map_values(|e: (String, SiteOrderProcessor)| (e.0@, e.1))
    }

    /// The names the registry holds, in registration order.
    pub open spec fn registered(self) -> Seq<Seq<char>> {
        self.entries().map_values(|e: (Seq<char>, SiteOrderProcessor)| e.0)
    }

    /// The processor that answers for a name: the first registered
    /// under it.
    pub open spec fn spec_processor_of(self, t: Seq<char>) -> SiteOrderProcessor {
        proc_lookup(self.entries(), t)
    }

    /// The default order type.
    pub closed spec fn spec_default_order_type(self) -> Seq<char> {
        self.default_order_type@
    }

    /// Whether a processor is registered under the name.
    pub open spec fn spec_is_registered(self, t: Seq<char>) -> bool {
        self.registered().contains(t)
    }

    /// A registry with the given default order type and no processors.
    pub fn new(default_order_type: OrderType) -> (r: Self)
        ensures
            r.registered() == Seq::<Seq<char>>::empty(),
            r.spec_default_order_type() == default_order_type@,
    {
        let r = OrderTypeRegistry { processors: Vec::new(), default_order_type };
        proof {
            assert(r.entries() =~= Seq::<(Seq<char>, SiteOrderProcessor)>::empty());
            assert(r.registered() =~= Seq::<Seq<char>>::empty());
        }
        r
    }

    /// A registry whose default order type is `site`.
    pub fn default() -> (r: Self)
        ensures
            r.registered() == Seq::<Seq<char>>::empty(),
            r.spec_default_order_type() == "site"@,
    {
        Self::new(String::from_str("site"))
    }

    /// Register a processor under its order-type name.
    pub fn register(&mut self, processor: SiteOrderProcessor)
        ensures
            final(self).entries() == old(self).entries().push(("site"@, processor)),
            final(self).registered() == old(self).registered().push("site"@),
            final(self).spec_default_order_type() == old(self).spec_default_order_type(),
    {
        let name = String::from_str(processor.order_type());
        self.processors.push((name, processor));
        proof {
            assert(self.entries() =~= old(self).entries().push(
                ("site"@, self.entries().last().1),
            ));
            assert(self.registered() =~= old(self).registered().push("site"@));
        }
    }

    /// The processor registered under the name, if any: the first one
    /// registered under it.
    pub fn get_processor(&self, order_type: &str) -> (r: Option<&SiteOrderProcessor>)
        ensures
            r is Some <==> self.spec_is_registered(order_type@),
            r matches Some(p) ==> *p == self.spec_processor_of(order_type@),
    {
        let mut i: usize = 0;
        while i < self.processors.len()
            invariant
                i <= self.registered().len(),
                forall|k: int| 0 <= k < i ==> self.registered()[k] != order_type@,
            decreases self.registered().len() - i,
        {
            if str_eq(self.processors[i].0.as_str(), order_type) {
                proof {
                    assert(self.registered()[i as int] == order_type@);
                    assert(self.entries()[i as int] == (order_type@, self.processors@[i as int].1));
                    assert(forall|j: int|
                        0 <= j < i ==> #[trigger] self.entries()[j].0 == self.registered()[j]);
                    lemma_proc_lookup_at(self.entries(), i as int, order_type@);
                }
                return Some(&self.processors[i].1);
            }
            proof {
                assert(self.registered()[i as int] == self.processors@[i as int].0@);
            }
            i += 1;
        }
        proof {
            if self.spec_is_registered(order_type@) {
                let k = choose|k: int|
                    0 <= k < self.registered().len() && self.registered()[k] == order_type@;
                assert(false);
            }
        }
        None
    }

    /// The default order type.
    pub fn default_order_type(&self) -> (r: &str)
        ensures
            r@ == self.spec_default_order_type(),
    {
        self.default_order_type.as_str()
    }

    /// The registered order-type names.
    pub fn registered_types(&self) -> (r: Vec<String>)
        ensures
            r.deep_view() == self.registered(),
    {
        let mut out: Vec<String> = Vec::new();
        let mut i: usize = 0;
        while i < self.processors.len()
            invariant
                i <= self.registered().len(),
                out@.len() == i,
                forall|k: int| 0 <= k < i ==> #[trigger] out@[k]@ == self.registered()[k],
            decreases self.registered().len() - i,
        {
            out.push(self.processors[i].0.clone());
            proof {
                assert(self.registered()[i as int] == self.processors@[i as int].0@);
            }
            i += 1;
        }
        proof {
            assert(out.deep_view() =~= self.registered());
        }
        out
    }

    /// Whether a processor is registered under the name.
    pub fn is_registered(&self, order_type: &str) -> (r: bool)
        ensures
            r == self.spec_is_registered(order_type@),
    {
        match self.get_processor(order_type) {
            Some(_) => true,
            None => false,
        }
    }
}

/// An entry found at the first matching index decides the lookup.
proof fn lemma_proc_lookup_at(es: Seq<(Seq<char>, SiteOrderProcessor)>, i: int, t: Seq<char>)
    requires
        0 <= i < es.len(),
        es[i].0 == t,
        forall|j: int| 0 <= j < i ==> es[j].0 != t,
    ensures
        proc_lookup(es, t) == es[i].1,
    decreases i,
{
    if i > 0 {
        lemma_proc_lookup_at(es.drop_first(), i - 1, t);
    }
}

/// Configuration of one order-type mapping.
#[derive(Debug)]
pub struct OrderTypeConfig {
    pub order_type: OrderType,
    pub processor: String,
    pub config: Vec<CustomField>,
}

/// Loads order-type configurations.
pub struct OrderTypeConfigLoader;

impl OrderTypeConfigLoader {
    /// Pass a list of configurations through unchanged.
    pub fn load_from_map(configs: Vec<OrderTypeConfig>) -> (r: Result<Vec<OrderTypeConfig>, AppError>)
        ensures
            r is Ok,
    {
        Ok(configs)
    }

    /// The default configuration: the site order type with its processor.
    pub fn default_configs() -> (r: Vec<OrderTypeConfig>)
        ensures
            r@.len() == 1,
            r@[0].order_type@ == "site"@,
            r@[0].processor@ == "SiteOrderProcessor"@,
    {
        let mut out: Vec<OrderTypeConfig> = Vec::new();
        out.push(
            OrderTypeConfig {
                order_type: String::from_str("site"),
                processor: String::from_str("SiteOrderProcessor"),
                config: Vec::new(),
            },
        );
        out
    }
}

} // verus!
