//! The enricher: a deterministic, idempotent merge of external metadata
//! into site and device records — geographic and contact fills, business
//! custom fields, a derived description and facility, and a canonical
//! tag set.
use vstd::prelude::*;
use crate::clock::today_yyyymmdd;
use crate::domain::clone_opt_string;
use crate::fields::{
    fields_of, lookup, ops_last, fields_sorted, set_field, canonical_fields,
    lemma_fields_sorted_unique,
};
use crate::models::{
    CustomField, FieldContent, NetBoxSite, NetBoxDevice, SiteContent, DeviceContent, SiteStatus,
    clone_opt_fields, clone_opt_strings, fields_view, tags_view,
};
use crate::strutil::{
    lower_seq, lower_string, upper_seq, upper_string, strictly_sorted, merge_sorted_tags,
    lemma_sorted_unique, string_eq, str_eq,
};

verus! {

/// The mathematical content of the geographic enrichment data.
pub struct GeoContent {
    pub latitude: i64,
    pub longitude: i64,
    pub timezone: Option<Seq<char>>,
    pub country: Option<Seq<char>>,
    pub region: Option<Seq<char>>,
}

/// Geographic enrichment data; coordinates in microdegrees.
#[derive(Debug)]
pub struct GeographicData {
    pub latitude: i64,
    pub longitude: i64,
    pub timezone: Option<String>,
    pub country: Option<String>,
    pub region: Option<String>,
}

impl View for GeographicData {
    type V = GeoContent;

    open spec fn view(&self) -> GeoContent {
        GeoContent {
            latitude: self.latitude,
            longitude: self.longitude,
            timezone: self.timezone.deep_view(),
            country: self.country.deep_view(),
            region: self.region.deep_view(),
        }
    }
}

impl Clone for GeographicData {
    fn clone(&self) -> (r: Self)
        ensures
            r@ == self@,
    {
        GeographicData {
            latitude: self.latitude,
            longitude: self.longitude,
            timezone: clone_opt_string(&self.timezone),
            country: clone_opt_string(&self.country),
            region: clone_opt_string(&self.region),
        }
    }
}

impl Default for GeographicData {
    fn default() -> (r: Self)
        ensures
            r@ == (GeoContent {
                latitude: 0,
                longitude: 0,
                timezone: None,
                country: None,
                region: None,
            }),
    {
        GeographicData { latitude: 0, longitude: 0, timezone: None, country: None, region: None }
    }
}

/// The mathematical content of the contact enrichment data.
pub struct ContactContent {
    pub name: Option<Seq<char>>,
    pub email: Option<Seq<char>>,
    pub phone: Option<Seq<char>>,
    pub department: Option<Seq<char>>,
}

/// Contact enrichment data.
#[derive(Debug)]
pub struct ContactData {
    pub name: Option<String>,
    pub email: Option<String>,
    pub phone: Option<String>,
    pub department: Option<String>,
}

impl View for ContactData {
    type V = ContactContent;

    open spec fn view(&self) -> ContactContent {
        ContactContent {
            name: self.name.deep_view(),
            email: self.email.deep_view(),
            phone: self.phone.deep_view(),
            department: self.department.deep_view(),
        }
    }
}

impl Clone for ContactData {
    fn clone(&self) -> (r: Self)
        ensures
            r@ == self@,
    {
        ContactData {
            name: clone_opt_string(&self.name),
            email: clone_opt_string(&self.email),
            phone: clone_opt_string(&self.phone),
            department: clone_opt_string(&self.department),
        }
    }
}

impl Default for ContactData {
    fn default() -> (r: Self)
        ensures
            r@ == (ContactContent { name: None, email: None, phone: None, department: None }),
    {
        ContactData { name: None, email: None, phone: None, department: None }
    }
}

/// The mathematical content of the business metadata.
pub struct BusinessContent {
    pub cost_center: Option<Seq<char>>,
    pub project_code: Option<Seq<char>>,
    pub environment: Option<Seq<char>>,
    pub priority: Option<Seq<char>>,
}

/// Business metadata.
#[derive(Debug)]
pub struct BusinessMetadata {
    pub cost_center: Option<String>,
    pub project_code: Option<String>,
    pub environment: Option<String>,
    pub priority: Option<String>,
}

impl View for BusinessMetadata {
    type V = BusinessContent;

    open spec fn view(&self) -> BusinessContent {
        BusinessContent {
            cost_center: self.cost_center.deep_view(),
            project_code: self.project_code.deep_view(),
            environment: self.environment.deep_view(),
            priority: self.priority.deep_view(),
        }
    }
}

impl Clone for BusinessMetadata {
    fn clone(&self) -> (r: Self)
        ensures
            r@ == self@,
    {
        BusinessMetadata {
            cost_center: clone_opt_string(&self.cost_center),
            project_code: clone_opt_string(&self.project_code),
            environment: clone_opt_string(&self.environment),
            priority: clone_opt_string(&self.priority),
        }
    }
}

impl Default for BusinessMetadata {
    fn default() -> (r: Self)
        ensures
            r@ == (BusinessContent {
                cost_center: None,
                project_code: None,
                environment: None,
                priority: None,
            }),
    {
        BusinessMetadata { cost_center: None, project_code: None, environment: None, priority: None }
    }
}

/// The mathematical content of the enrichment data.
pub struct EnrichContent {
    pub geographic: Option<GeoContent>,
    pub contact: Option<ContactContent>,
    pub business: Option<BusinessContent>,
    pub tags: Seq<Seq<char>>,
    pub metadata: Seq<FieldContent>,
}

/// Enrichment data gathered from external sources.
#[derive(Debug)]
pub struct EnrichmentData {
    pub geographic: Option<GeographicData>,
    pub contact: Option<ContactData>,
    pub business: Option<BusinessMetadata>,
    pub tags: Vec<String>,
    pub metadata: Vec<CustomField>,
}

impl View for EnrichmentData {
    type V = EnrichContent;

    open spec fn view(&self) -> EnrichContent {
        EnrichContent {
            geographic: match &self.geographic {
                Some(g) => Some(g@),
                None => None,
            },
            contact: match &self.contact {
                Some(c) => Some(c@),
                None => None,
            },
            business: match &self.business {
                Some(b) => Some(b@),
                None => None,
            },
            tags: self.tags.deep_view(),
            metadata: fields_of(self.metadata),
        }
    }
}

impl Clone for EnrichmentData {
    fn clone(&self) -> (r: Self)
        ensures
            r@ == self@,
    {
        let r = EnrichmentData {
            geographic: match &self.geographic {
                Some(g) => Some(g.clone()),
                None => None,
            },
            contact: match &self.contact {
                Some(c) => Some(c.clone()),
                None => None,
            },
            business: match &self.business {
                Some(b) => Some(b.clone()),
                None => None,
            },
            tags: match clone_opt_strings(&Some(clone_strings_helper(&self.tags))) {
                Some(v) => v,
                None => Vec::new(),
            },
            metadata: match clone_opt_fields(&Some(clone_fields_helper(&self.metadata))) {
                Some(v) => v,
                None => Vec::new(),
            },
        };
        proof {
            assert(r@.tags =~= self@.tags);
            assert(r@.metadata =~= self@.metadata);
        }
        r
    }
}

/// Copy a vector of strings.
fn clone_strings_helper(v: &Vec<String>) -> (r: Vec<String>)
    ensures
        r.deep_view() == v.deep_view(),
{
    let mut out: Vec<String> = Vec::new();
    let mut i: usize = 0;
    while i < v.len()
        invariant
            i <= v@.len(),
            out@.len() == i,
            forall|k: int| 0 <= k < i ==> #[trigger] out@[k]@ == v@[k]@,
        decreases v@.len() - i,
    {
        out.push(v[i].clone());
        i += 1;
    }
    proof {
        assert(out.deep_view() =~= v.deep_view());
    }
    out
}

/// Copy a vector of custom fields.
fn clone_fields_helper(v: &Vec<CustomField>) -> (r: Vec<CustomField>)
    ensures
        fields_of(r) == fields_of(*v),
{
    let mut out: Vec<CustomField> = Vec::new();
    let mut i: usize = 0;
    while i < v.len()
        invariant
            i <= v@.len(),
            out@.len() == i,
            forall|k: int| 0 <= k < i ==> #[trigger] out@[k]@ == v@[k]@,
        decreases v@.len() - i,
    {
        out.push(v[i].clone());
        i += 1;
    }
    proof {
        assert(fields_of(out) =~= fields_of(*v));
    }
    out
}

impl Default for EnrichmentData {
    fn default() -> (r: Self)
        ensures
            r@.geographic is None,
            r@.contact is None,
            r@.business is None,
            r@.tags == Seq::<Seq<char>>::empty(),
            r@.metadata == Seq::<FieldContent>::empty(),
    {
        let r = EnrichmentData {
            geographic: None,
            contact: None,
            business: None,
            tags: Vec::new(),
            metadata: Vec::new(),
        };
        proof {
            assert(r@.tags =~= Seq::<Seq<char>>::empty());
            assert(r@.metadata =~= Seq::<FieldContent>::empty());
        }
        r
    }
}

/// The mathematical content of the enricher's configuration.
pub struct EnricherContent {
    pub default_tags: Seq<Seq<char>>,
    pub environment_tags: Seq<(Seq<char>, Seq<Seq<char>>)>,
}

/// The enricher: configured default tags and per-environment tags.
pub struct ObjectEnricher {
    default_tags: Vec<String>,
    environment_tags: Vec<(String, Vec<String>)>,
}

impl View for ObjectEnricher {
    type V = EnricherContent;

    closed spec fn view(&self) -> EnricherContent {
        EnricherContent {
            default_tags: self.default_tags.deep_view(),
            environment_tags: self.environment_tags@.map_values(
                |e: (String, Vec<String>)| (e.0@, e.1.deep_view()),
            ),
        }
    }
}

/// The tags configured for an environment: the first matching entry.
pub open spec fn env_tags_lookup(m: Seq<(Seq<char>, Seq<Seq<char>>)>, env: Seq<char>) -> Seq<
    Seq<char>,
>
    decreases m.len(),
{
    if m.len() == 0 {
        Seq::empty()
    } else if m[0].0 == env {
        m[0].1
    } else {
        env_tags_lookup(m.drop_first(), env)
    }
}

/// The environment named in the enrichment data, if any.
pub open spec fn env_of(e: EnrichContent) -> Option<Seq<char>> {
    match e.business {
        Some(b) => b.environment,
        None => None,
    }
}

/// The country named in the enrichment data, if any.
pub open spec fn country_of(e: EnrichContent) -> Option<Seq<char>> {
    match e.geographic {
        Some(g) => g.country,
        None => None,
    }
}

/// The description composed out of the enrichment data, if any of its
/// parts is present.
pub open spec fn computed_description(e: EnrichContent) -> Option<Seq<char>> {
    match (env_of(e), country_of(e)) {
        (Some(env), Some(c)) => Some("Environment: "@ + env + ", Country: "@ + c),
        (Some(env), None) => Some("Environment: "@ + env),
        (None, Some(c)) => Some("Country: "@ + c),
        (None, None) => None,
    }
}

/// The custom-field writes the enrichment data makes, in order: the
/// four business fields, then the free-form metadata.
pub open spec fn ops_of(e: EnrichContent) -> Seq<FieldContent> {
    (match e.business {
        Some(b) => (match b.cost_center {
            Some(cc) => seq![FieldContent { key: "cost_center"@, value: cc }],
            None => Seq::empty(),
        }) + (match b.project_code {
            Some(p) => seq![FieldContent { key: "project_code"@, value: p }],
            None => Seq::empty(),
        }) + (match b.environment {
            Some(env) => seq![FieldContent { key: "environment"@, value: env }],
            None => Seq::empty(),
        }) + (match b.priority {
            Some(p) => seq![FieldContent { key: "priority"@, value: p }],
            None => Seq::empty(),
        }),
        None => Seq::empty(),
    }) + e.metadata
}

/// What a lookup yields after the writes: the last write of the key
/// wins, else the base value.
pub open spec fn merged_lookup(
    base: Option<Seq<FieldContent>>,
    ops: Seq<FieldContent>,
    k: Seq<char>,
) -> Option<Seq<char>> {
    if ops_last(ops, k) is Some {
        ops_last(ops, k)
    } else {
        match base {
            Some(fs) => lookup(fs, k),
            None => None,
        }
    }
}

/// The tag derived from a site's status.
pub open spec fn status_tag(st: SiteStatus) -> Seq<char> {
    match st {
        SiteStatus::Active => "status-active"@,
        SiteStatus::Planned => "status-planned"@,
        SiteStatus::Retired => "status-retired"@,
        SiteStatus::Staging => "status-staging"@,
    }
}

/// The tags the enricher adds to a site: the configured defaults, the
/// environment's tags, priority and cost-center tags, country and
/// region tags, the caller's tags, and a status tag.
pub open spec fn site_tag_additions(
    c: EnricherContent,
    e: EnrichContent,
    status: Option<SiteStatus>,
) -> Seq<Seq<char>> {
    c.default_tags + (match e.business {
        Some(b) => (match b.environment {
            Some(env) => env_tags_lookup(c.environment_tags, env),
            None => Seq::empty(),
        }) + (match b.priority {
            Some(p) => seq!["priority-"@ + lower_seq(p)],
            None => Seq::empty(),
        }) + (match b.cost_center {
            Some(cc) => seq!["cost-center-"@ + lower_seq(cc)],
            None => Seq::empty(),
        }),
        None => Seq::empty(),
    }) + (match e.geographic {
        Some(g) => (match g.country {
            Some(cy) => seq!["country-"@ + lower_seq(cy)],
            None => Seq::empty(),
        }) + (match g.region {
            Some(rg) => seq!["region-"@ + lower_seq(rg)],
            None => Seq::empty(),
        }),
        None => Seq::empty(),
    }) + e.tags + (match status {
        Some(st) => seq![status_tag(st)],
        None => Seq::empty(),
    })
}

/// The tags the enricher adds to a device: the configured defaults, the
/// environment's tags, priority and cost-center tags, and the caller's
/// tags.
pub open spec fn device_tag_additions(c: EnricherContent, e: EnrichContent) -> Seq<Seq<char>> {
    c.default_tags + (match e.business {
        Some(b) => (match b.environment {
            Some(env) => env_tags_lookup(c.environment_tags, env),
            None => Seq::empty(),
        }) + (match b.priority {
            Some(p) => seq!["priority-"@ + lower_seq(p)],
            None => Seq::empty(),
        }) + (match b.cost_center {
            Some(cc) => seq!["cost-center-"@ + lower_seq(cc)],
            None => Seq::empty(),
        }),
        None => Seq::empty(),
    }) + e.tags
}

/// How the custom fields of a record change: untouched without business
/// data, else replaced by a key-sorted list whose lookups are the old
/// values overridden by the writes.
pub open spec fn custom_fields_post(
    base: Option<Seq<FieldContent>>,
    e: EnrichContent,
    rf: Option<Seq<FieldContent>>,
) -> bool {
    if e.business is None {
        rf == base
    } else {
        &&& rf matches Some(cf)
        &&& fields_sorted(rf->0)
        &&& forall|k: Seq<char>| #[trigger] lookup(rf->0, k) == merged_lookup(base, ops_of(e), k)
    }
}

/// How the tags of a record change: the result is strictly sorted and
/// holds exactly the old tags and the additions.
pub open spec fn tags_post(
    base: Option<Seq<Seq<char>>>,
    additions: Seq<Seq<char>>,
    rt: Option<Seq<Seq<char>>>,
) -> bool {
    &&& rt matches Some(t)
    &&& strictly_sorted(rt->0)
    &&& forall|x: Seq<char>| #[trigger]
        (rt->0).contains(x) <==> ((base matches Some(b) && b.contains(x)) || additions.contains(x))
}

/// What enriching a site yields: geographic and contact fields filled
/// only when absent, a derived description and facility when absent,
/// business metadata merged into the custom fields, and a canonical
/// tag set. Everything else is untouched.
pub open spec fn enrich_site_post(
    s: SiteContent,
    e: EnrichContent,
    c: EnricherContent,
    r: SiteContent,
) -> bool {
    &&& r.id == s.id
    &&& r.name == s.name
    &&& r.slug == s.slug
    &&& r.status == s.status
    &&& r.region == s.region
    &&& r.tenant == s.tenant
    &&& r.physical_address == s.physical_address
    &&& r.shipping_address == s.shipping_address
    &&& r.comments == s.comments
    &&& r.created == s.created
    &&& r.last_updated == s.last_updated
    &&& r.latitude == (match (s.latitude, e.geographic) {
        (None, Some(g)) => Some(g.latitude),
        _ => s.latitude,
    })
    &&& r.longitude == (match (s.longitude, e.geographic) {
        (None, Some(g)) => Some(g.longitude),
        _ => s.longitude,
    })
    &&& r.description == (if s.description is Some {
        s.description
    } else {
        computed_description(e)
    })
    &&& r.facility == (if s.facility is Some {
        s.facility
    } else {
        match e.business {
            Some(b) => match b.cost_center {
                Some(cc) => Some("FAC-"@ + upper_seq(cc)),
                None => None,
            },
            None => None,
        }
    })
    &&& r.contact_name == (if s.contact_name is Some {
        s.contact_name
    } else {
        match e.contact {
            Some(ct) => ct.name,
            None => None,
        }
    })
    &&& r.contact_email == (if s.contact_email is Some {
        s.contact_email
    } else {
        match e.contact {
            Some(ct) => ct.email,
            None => None,
        }
    })
    &&& r.contact_phone == (if s.contact_phone is Some {
        s.contact_phone
    } else {
        match e.contact {
            Some(ct) => ct.phone,
            None => None,
        }
    })
    &&& custom_fields_post(s.custom_fields, e, r.custom_fields)
    &&& tags_post(s.tags, site_tag_additions(c, e, s.status), r.tags)
}

/// What enriching a device yields: a derived name and asset tag when
/// absent, business metadata merged into the custom fields, and a
/// canonical tag set. Everything else is untouched.
pub open spec fn enrich_device_post(
    s: DeviceContent,
    e: EnrichContent,
    c: EnricherContent,
    r: DeviceContent,
) -> bool {
    &&& r.id == s.id
    &&& r.device_type == s.device_type
    &&& r.device_role == s.device_role
    &&& r.tenant == s.tenant
    &&& r.platform == s.platform
    &&& r.serial == s.serial
    &&& r.site == s.site
    &&& r.location == s.location
    &&& r.rack == s.rack
    &&& r.position == s.position
    &&& r.face == s.face
    &&& r.status == s.status
    &&& r.primary_ip4 == s.primary_ip4
    &&& r.primary_ip6 == s.primary_ip6
    &&& r.cluster == s.cluster
    &&& r.virtual_chassis == s.virtual_chassis
    &&& r.vc_position == s.vc_position
    &&& r.vc_priority == s.vc_priority
    &&& r.comments == s.comments
    &&& r.created == s.created
    &&& r.last_updated == s.last_updated
    &&& (match (s.name, e.business) {
        (None, Some(b)) => match b.project_code {
            Some(p) => r.name matches Some(nm) && nm.len() >= ("DEV-"@ + p + "-"@).len()
                && nm.take(("DEV-"@ + p + "-"@).len() as int) == "DEV-"@ + p + "-"@,
            None => r.name is None,
        },
        _ => r.name == s.name,
    })
    &&& r.asset_tag == (if s.asset_tag is Some {
        s.asset_tag
    } else {
        match e.business {
            Some(b) => match b.cost_center {
                Some(cc) => Some("AT-"@ + cc),
                None => None,
            },
            None => None,
        }
    })
    &&& custom_fields_post(s.custom_fields, e, r.custom_fields)
    &&& tags_post(s.tags, device_tag_additions(c, e), r.tags)
}

impl ObjectEnricher {
    /// The default configuration: tags `netgate` and `enriched` on every
    /// record, and per-environment tags for production, staging and
    /// development.
    pub fn new() -> (r: Self)
        ensures
            r@.default_tags.len() == 2,
            r@.default_tags[0] == "netgate"@,
            r@.default_tags[1] == "enriched"@,
            env_tags_lookup(r@.environment_tags, "production"@) == seq!["prod"@, "critical"@],
            env_tags_lookup(r@.environment_tags, "staging"@) == seq!["staging"@, "test"@],
            env_tags_lookup(r@.environment_tags, "development"@) == seq!["dev"@, "non-prod"@],
    {
        let mut default_tags: Vec<String> = Vec::new();
        default_tags.push(String::from_str("netgate"));
        default_tags.push(String::from_str("enriched"));
        let mut environment_tags: Vec<(String, Vec<String>)> = Vec::new();
        let mut prod: Vec<String> = Vec::new();
        prod.push(String::from_str("prod"));
        prod.push(String::from_str("critical"));
        environment_tags.push((String::from_str("production"), prod));
        let mut staging: Vec<String> = Vec::new();
        staging.push(String::from_str("staging"));
        staging.push(String::from_str("test"));
        environment_tags.push((String::from_str("staging"), staging));
        let mut dev: Vec<String> = Vec::new();
        dev.push(String::from_str("dev"));
        dev.push(String::from_str("non-prod"));
        environment_tags.push((String::from_str("development"), dev));
        let r = ObjectEnricher { default_tags, environment_tags };
        proof {
            reveal_strlit("production");
            reveal_strlit("staging");
            reveal_strlit("development");
            assert(r@.default_tags =~= seq!["netgate"@, "enriched"@]);
            assert(r@.environment_tags.len() == 3);
            assert(r@.environment_tags[0].0 == "production"@);
            assert(r@.environment_tags[1].0 == "staging"@);
            assert(r@.environment_tags[2].0 == "development"@);
            assert(r@.environment_tags[0].1 =~= seq!["prod"@, "critical"@]);
            assert(r@.environment_tags[1].1 =~= seq!["staging"@, "test"@]);
            assert(r@.environment_tags[2].1 =~= seq!["dev"@, "non-prod"@]);
            assert("production"@ != "staging"@ && "production"@ != "development"@ && "staging"@
                != "development"@);
            reveal_with_fuel(env_tags_lookup, 4);
            assert(r@.environment_tags.drop_first()[0] == r@.environment_tags[1]);
            assert(r@.environment_tags.drop_first().drop_first()[0] == r@.environment_tags[2]);
            assert(env_tags_lookup(r@.environment_tags, "production"@) =~= seq![
                "prod"@,
                "critical"@,
            ]);
            assert(env_tags_lookup(r@.environment_tags, "staging"@) =~= seq!["staging"@, "test"@]);
            assert(env_tags_lookup(r@.environment_tags, "development"@) =~= seq![
                "dev"@,
                "non-prod"@,
            ]);
        }
        r
    }

    /// An enricher with custom default tags and environment tags.
    pub fn with_config(default_tags: Vec<String>, environment_tags: Vec<(String, Vec<String>)>) -> (r:
        Self)
        ensures
            r@.default_tags == default_tags.deep_view(),
            r@.environment_tags == environment_tags@.map_values(
                |e: (String, Vec<String>)| (e.0@, e.1.deep_view()),
            ),
    {
        ObjectEnricher { default_tags, environment_tags }
    }

    /// The configured tags of an environment.
    fn env_tags_of(&self, env: &String) -> (r: Vec<String>)
        ensures
            r.deep_view() == env_tags_lookup(self@.environment_tags, env@),
    {
        let ghost m = self@.environment_tags;
        let mut i: usize = 0;
        while i < self.environment_tags.len()
            invariant
                m == self@.environment_tags,
                i <= m.len(),
                forall|j: int| 0 <= j < i ==> m[j].0 != env@,
            decreases m.len() - i,
        {
            if string_eq(&self.environment_tags[i].0, env) {
                proof {
                    assert(m[i as int].0 == self.environment_tags@[i as int].0@);
                    lemma_env_lookup_at(m, i as int, env@);
                }
                return clone_strings_helper(&self.environment_tags[i].1);
            }
            proof {
                assert(m[i as int].0 == self.environment_tags@[i as int].0@);
            }
            i += 1;
        }
        proof {
            lemma_env_lookup_absent(m, env@);
        }
        let empty: Vec<String> = Vec::new();
        proof {
            assert(empty.deep_view() =~= Seq::<Seq<char>>::empty());
        }
        empty
    }

    /// Apply the enrichment's custom-field writes to a record's fields.
    fn apply_field_ops(&self, base: &Option<Vec<CustomField>>, e: &EnrichmentData) -> (r: Vec<
        CustomField,
    >)
        requires
            e@.business is Some,
        ensures
            fields_sorted(fields_of(r)),
            forall|k: Seq<char>| #[trigger]
                lookup(fields_of(r), k) == merged_lookup(
                    fields_view(*base),
                    ops_of(e@),
                    k,
                ),
    {
        let ghost basev = fields_view(*base);
        let mut cur: Vec<CustomField> = match base {
            Some(v) => clone_fields_helper(v),
            None => Vec::new(),
        };
        proof {
            assert forall|k: Seq<char>| #[trigger] lookup(fields_of(cur), k) == (match basev {
                Some(fs) => lookup(fs, k),
                None => None,
            }) by {
                if basev is None {
                    assert(fields_of(cur) =~= Seq::<FieldContent>::empty());
                }
            }
        }
        let ops = build_ops(e);
        let ghost opsv = ops_of(e@);
        let n = ops.len();
        let mut i: usize = 0;
        proof {
            assert(opsv.take(0) =~= Seq::<FieldContent>::empty());
        }
        while i < n
            invariant
                n == opsv.len(),
                i <= n,
                fields_of(ops) == opsv,
                forall|k: Seq<char>| #[trigger]
                    lookup(fields_of(cur), k) == merged_lookup(basev, opsv.take(i as int), k),
            decreases n - i,
        {
            let ghost pre = fields_of(cur);
            let key = ops[i].key.clone();
            let value = ops[i].value.clone();
            proof {
                assert(opsv[i as int] == ops@[i as int]@);
            }
            set_field(&mut cur, key, value);
            proof {
                let t1 = opsv.take(i + 1);
                assert(t1.drop_last() =~= opsv.take(i as int));
                assert(t1.last() == opsv[i as int]);
                assert forall|k: Seq<char>| #[trigger] lookup(fields_of(cur), k) == merged_lookup(
                    basev,
                    t1,
                    k,
                ) by {
                    if k == opsv[i as int].key {
                        assert(ops_last(t1, k) == Some(opsv[i as int].value));
                    } else {
                        assert(ops_last(t1, k) == ops_last(opsv.take(i as int), k));
                    }
                }
            }
            i += 1;
        }
        proof {
            assert(opsv.take(n as int) =~= opsv);
        }
        canonical_fields(&cur)
    }

    /// The tag list a record ends with: its own tags and the additions,
    /// sorted and without duplicates.
    fn final_tags(&self, base: Option<Vec<String>>, adds: Vec<String>) -> (r: Vec<String>)
        ensures
            strictly_sorted(r.deep_view()),
            forall|x: Seq<char>| #[trigger]
                r.deep_view().contains(x) <==> ((tags_view(base) matches Some(b) && b.contains(x))
                    || adds.deep_view().contains(x)),
    {
        let basev = match base {
            Some(v) => v,
            None => Vec::new(),
        };
        proof {
            if tags_view(base) is None {
                assert(basev.deep_view() =~= Seq::<Seq<char>>::empty());
            }
        }
        merge_sorted_tags(basev, adds)
    }

    /// Enrich a site record.
    pub fn enrich_site(&self, site: NetBoxSite, enrichment: &EnrichmentData) -> (r: NetBoxSite)
        ensures
            enrich_site_post(site@, enrichment@, self@, r@),
    {
        let mut site = site;
        let ghost s0 = site@;
        // geographic fills
        if let Some(geo) = &enrichment.geographic {
            if site.latitude.is_none() {
                site.latitude = Some(geo.latitude);
            }
            if site.longitude.is_none() {
                site.longitude = Some(geo.longitude);
            }
        }
        // derived description
        if site.description.is_none() {
            let env_part: Option<&String> = match &enrichment.business {
                Some(b) => match &b.environment {
                    Some(env) => Some(env),
                    None => None,
                },
                None => None,
            };
            let country_part: Option<&String> = match &enrichment.geographic {
                Some(g) => match &g.country {
                    Some(cy) => Some(cy),
                    None => None,
                },
                None => None,
            };
            match (env_part, country_part) {
                (Some(env), Some(cy)) => {
                    site.description = Some(
                        String::from_str("Environment: ").concat(env.as_str()).concat(
                            ", Country: ",
                        ).concat(cy.as_str()),
                    );
                },
                (Some(env), None) => {
                    site.description = Some(String::from_str("Environment: ").concat(env.as_str()));
                },
                (None, Some(cy)) => {
                    site.description = Some(String::from_str("Country: ").concat(cy.as_str()));
                },
                (None, None) => {},
            }
        }
        // derived facility
        if site.facility.is_none() {
            if let Some(b) = &enrichment.business {
                if let Some(cc) = &b.cost_center {
                    site.facility = Some(String::from_str("FAC-").concat(upper_string(cc.as_str()).as_str()));
                }
            }
        }
        // contact fills
        if let Some(contact) = &enrichment.contact {
            if site.contact_name.is_none() {
                site.contact_name = clone_opt_string(&contact.name);
            }
            if site.contact_email.is_none() {
                site.contact_email = clone_opt_string(&contact.email);
            }
            if site.contact_phone.is_none() {
                site.contact_phone = clone_opt_string(&contact.phone);
            }
        }
        // business metadata into custom fields
        if enrichment.business.is_some() {
            let merged = self.apply_field_ops(&site.custom_fields, enrichment);
            site.custom_fields = Some(merged);
        }
        // tags
        let adds = self.site_tag_adds(enrichment, &site.status);
        let base = site.tags.take();
        let merged_tags = self.final_tags(base, adds);
        site.tags = Some(merged_tags);
        site
    }

    /// The tag additions for a site, per the configuration, the
    /// enrichment data, and the site's status.
    #[verifier::rlimit(60)]
    fn site_tag_adds(&self, enrichment: &EnrichmentData, status: &Option<SiteStatus>) -> (r: Vec<
        String,
    >)
        ensures
            r.deep_view() == site_tag_additions(self@, enrichment@, *status),
    {
        let mut adds = clone_strings_helper(&self.default_tags);
        let ghost a1 = self@.default_tags;
        proof {
            assert(adds.deep_view() =~= a1);
        }
        if let Some(b) = &enrichment.business {
            if let Some(env) = &b.environment {
                let mut et = self.env_tags_of(env);
                let ghost etv = et.deep_view();
                let ghost pre = adds.deep_view();
                append_strings(&mut adds, et);
                proof {
                    assert(adds.deep_view() =~= pre + etv);
                }
            }
            if let Some(p) = &b.priority {
                let ghost pre = adds.deep_view();
                adds.push(String::from_str("priority-").concat(lower_string(p.as_str()).as_str()));
                proof {
                    assert(adds.deep_view() =~= pre + seq!["priority-"@ + lower_seq(p@)]);
                }
            }
            if let Some(cc) = &b.cost_center {
                let ghost pre = adds.deep_view();
                adds.push(String::from_str("cost-center-").concat(lower_string(cc.as_str()).as_str()));
                proof {
                    assert(adds.deep_view() =~= pre + seq!["cost-center-"@ + lower_seq(cc@)]);
                }
            }
        }
        if let Some(g) = &enrichment.geographic {
            if let Some(cy) = &g.country {
                let ghost pre = adds.deep_view();
                adds.push(String::from_str("country-").concat(lower_string(cy.as_str()).as_str()));
                proof {
                    assert(adds.deep_view() =~= pre + seq!["country-"@ + lower_seq(cy@)]);
                }
            }
            if let Some(rg) = &g.region {
                let ghost pre = adds.deep_view();
                adds.push(String::from_str("region-").concat(lower_string(rg.as_str()).as_str()));
                proof {
                    assert(adds.deep_view() =~= pre + seq!["region-"@ + lower_seq(rg@)]);
                }
            }
        }
        {
            let ghost pre = adds.deep_view();
            let caller = clone_strings_helper(&enrichment.tags);
            append_strings(&mut adds, caller);
            proof {
                assert(adds.deep_view() =~= pre + enrichment@.tags);
            }
        }
        if let Some(st) = status {
            let ghost pre = adds.deep_view();
            let tag = match st {
                SiteStatus::Active => String::from_str("status-active"),
                SiteStatus::Planned => String::from_str("status-planned"),
                SiteStatus::Retired => String::from_str("status-retired"),
                SiteStatus::Staging => String::from_str("status-staging"),
            };
            adds.push(tag);
            proof {
                assert(adds.deep_view() =~= pre + seq![status_tag(*st)]);
            }
        }
        proof {
            assert(adds.deep_view() =~= site_tag_additions(self@, enrichment@, *status));
        }
        adds
    }

    /// The tag additions for a device.
    #[verifier::rlimit(60)]
    fn device_tag_adds(&self, enrichment: &EnrichmentData) -> (r: Vec<String>)
        ensures
            r.deep_view() == device_tag_additions(self@, enrichment@),
    {
        let mut adds = clone_strings_helper(&self.default_tags);
        let ghost a1 = self@.default_tags;
        proof {
            assert(adds.deep_view() =~= a1);
        }
        if let Some(b) = &enrichment.business {
            if let Some(env) = &b.environment {
                let et = self.env_tags_of(env);
                let ghost etv = et.deep_view();
                let ghost pre = adds.deep_view();
                append_strings(&mut adds, et);
                proof {
                    assert(adds.deep_view() =~= pre + etv);
                }
            }
            if let Some(p) = &b.priority {
                let ghost pre = adds.deep_view();
                adds.push(String::from_str("priority-").concat(lower_string(p.as_str()).as_str()));
                proof {
                    assert(adds.deep_view() =~= pre + seq!["priority-"@ + lower_seq(p@)]);
                }
            }
            if let Some(cc) = &b.cost_center {
                let ghost pre = adds.deep_view();
                adds.push(String::from_str("cost-center-").concat(lower_string(cc.as_str()).as_str()));
                proof {
                    assert(adds.deep_view() =~= pre + seq!["cost-center-"@ + lower_seq(cc@)]);
                }
            }
        }
        {
            let ghost pre = adds.deep_view();
            let caller = clone_strings_helper(&enrichment.tags);
            append_strings(&mut adds, caller);
            proof {
                assert(adds.deep_view() =~= pre + enrichment@.tags);
            }
        }
        proof {
            assert(adds.deep_view() =~= device_tag_additions(self@, enrichment@));
        }
        adds
    }

    /// Enrich a device record.
    pub fn enrich_device(&self, device: NetBoxDevice, enrichment: &EnrichmentData) -> (r:
        NetBoxDevice)
        ensures
            enrich_device_post(device@, enrichment@, self@, r@),
    {
        let mut device = device;
        // derived name
        if device.name.is_none() {
            if let Some(b) = &enrichment.business {
                if let Some(p) = &b.project_code {
                    let date = today_yyyymmdd();
                    let prefix = String::from_str("DEV-").concat(p.as_str()).concat("-");
                    let ghost prefv = prefix@;
                    let nm = prefix.concat(date.as_str());
                    proof {
                        assert(prefv == "DEV-"@ + p@ + "-"@);
                        assert(nm@.take(prefv.len() as int) =~= prefv);
                    }
                    device.name = Some(nm);
                }
            }
        }
        // derived asset tag
        if device.asset_tag.is_none() {
            if let Some(b) = &enrichment.business {
                if let Some(cc) = &b.cost_center {
                    device.asset_tag = Some(String::from_str("AT-").concat(cc.as_str()));
                }
            }
        }
        // business metadata into custom fields
        if enrichment.business.is_some() {
            let merged = self.apply_field_ops(&device.custom_fields, enrichment);
            device.custom_fields = Some(merged);
        }
        // tags
        let adds = self.device_tag_adds(enrichment);
        let base = device.tags.take();
        let merged_tags = self.final_tags(base, adds);
        device.tags = Some(merged_tags);
        device
    }

    /// The status implied by the environment: production is Active,
    /// staging is Staging, development is Planned, anything else none.
    pub fn compute_status(&self, enrichment: &EnrichmentData) -> (r: Option<SiteStatus>)
        ensures
            r == spec_compute_status(enrichment@),
    {
        if let Some(b) = &enrichment.business {
            if let Some(env) = &b.environment {
                let lower = lower_string(env.as_str());
                if str_eq(lower.as_str(), "production") {
                    return Some(SiteStatus::Active);
                }
                if str_eq(lower.as_str(), "staging") {
                    return Some(SiteStatus::Staging);
                }
                if str_eq(lower.as_str(), "development") {
                    return Some(SiteStatus::Planned);
                }
                return None;
            }
        }
        None
    }
}

/// The status implied by an environment name, compared in lower case.
pub open spec fn spec_compute_status(e: EnrichContent) -> Option<SiteStatus> {
    match e.business {
        Some(b) => match b.environment {
            Some(env) => {
                if lower_seq(env) == "production"@ {
                    Some(SiteStatus::Active)
                } else if lower_seq(env) == "staging"@ {
                    Some(SiteStatus::Staging)
                } else if lower_seq(env) == "development"@ {
                    Some(SiteStatus::Planned)
                } else {
                    None
                }
            },
            None => None,
        },
        None => None,
    }
}


/// The list of custom-field writes the enrichment data makes.
fn build_ops(e: &EnrichmentData) -> (r: Vec<CustomField>)
    requires
        e@.business is Some,
    ensures
        fields_of(r) == ops_of(e@),
{
    let mut ops: Vec<CustomField> = Vec::new();
    let b = match &e.business {
        Some(b) => b,
        None => {
            proof {
                assert(false);
            }
            return Vec::new();
        },
    };
    if let Some(cc) = &b.cost_center {
        ops.push(CustomField { key: String::from_str("cost_center"), value: cc.clone() });
    }
    if let Some(p) = &b.project_code {
        ops.push(CustomField { key: String::from_str("project_code"), value: p.clone() });
    }
    if let Some(env) = &b.environment {
        ops.push(CustomField { key: String::from_str("environment"), value: env.clone() });
    }
    if let Some(pr) = &b.priority {
        ops.push(CustomField { key: String::from_str("priority"), value: pr.clone() });
    }
    let ghost bops = fields_of(ops);
    let ghost bn = bops.len();
    let ghost bv = e@.business->0;
    proof {
        assert(bops =~= (match bv.cost_center {
            Some(cc) => seq![FieldContent { key: "cost_center"@, value: cc }],
            None => Seq::<FieldContent>::empty(),
        }) + (match bv.project_code {
            Some(p) => seq![FieldContent { key: "project_code"@, value: p }],
            None => Seq::<FieldContent>::empty(),
        }) + (match bv.environment {
            Some(env) => seq![FieldContent { key: "environment"@, value: env }],
            None => Seq::<FieldContent>::empty(),
        }) + (match bv.priority {
            Some(p) => seq![FieldContent { key: "priority"@, value: p }],
            None => Seq::<FieldContent>::empty(),
        }));
        assert(forall|k: int| 0 <= k < bn ==> #[trigger] ops@[k]@ == bops[k]);
    }
    let mut mi: usize = 0;
    while mi < e.metadata.len()
        invariant
            mi <= e.metadata@.len(),
            bn == bops.len(),
            bops == fields_of(ops).take(bn as int),
            ops@.len() == bn + mi,
            forall|k: int| 0 <= k < bn ==> #[trigger] ops@[k]@ == bops[k],
            forall|k: int| bn <= k < bn + mi ==> #[trigger] ops@[k]@ == e.metadata@[k - bn]@,
        decreases e.metadata@.len() - mi,
    {
        ops.push(e.metadata[mi].clone());
        mi += 1;
    }
    proof {
        assert forall|k: int|
            0 <= k < ops@.len() implies #[trigger] fields_of(ops)[k] == ops@[k]@ by {}
        assert forall|k: int|
            0 <= k < e.metadata@.len() implies #[trigger] fields_of(e.metadata)[k]
                == e.metadata@[k]@ by {}
        assert(fields_of(ops) =~= bops + fields_of(e.metadata));
        assert(fields_of(ops) =~= ops_of(e@));
    }
    ops
}

/// Append every string of `adds` to `v`.
fn append_strings(v: &mut Vec<String>, adds: Vec<String>)
    ensures
        final(v).deep_view() == old(v).deep_view() + adds.deep_view(),
{
    let ghost pre = v.deep_view();
    let ghost pn = pre.len();
    let n = adds.len();
    let mut i: usize = 0;
    proof {
        assert(forall|k: int| 0 <= k < pn ==> #[trigger] v@[k]@ == pre[k]);
    }
    while i < n
        invariant
            n == adds@.len(),
            pn == pre.len(),
            i <= n,
            v@.len() == pn + i,
            forall|k: int| 0 <= k < pn ==> #[trigger] v@[k]@ == pre[k],
            forall|k: int| pn <= k < pn + i ==> #[trigger] v@[k]@ == adds@[k - pn]@,
        decreases n - i,
    {
        v.push(adds[i].clone());
        i += 1;
    }
    proof {
        assert(forall|k: int| 0 <= k < v@.len() ==> #[trigger] v.deep_view()[k] == v@[k]@);
        assert(forall|k: int|
            0 <= k < adds@.len() ==> #[trigger] adds.deep_view()[k] == adds@[k]@);
        assert(v.deep_view() =~= pre + adds.deep_view());
    }
}

/// An entry found at the first matching index decides the environment
/// lookup.
proof fn lemma_env_lookup_at(m: Seq<(Seq<char>, Seq<Seq<char>>)>, i: int, env: Seq<char>)
    requires
        0 <= i < m.len(),
        m[i].0 == env,
        forall|j: int| 0 <= j < i ==> m[j].0 != env,
    ensures
        env_tags_lookup(m, env) == m[i].1,
    decreases i,
{
    if i > 0 {
        lemma_env_lookup_at(m.drop_first(), i - 1, env);
    }
}

/// An absent environment has no configured tags.
proof fn lemma_env_lookup_absent(m: Seq<(Seq<char>, Seq<Seq<char>>)>, env: Seq<char>)
    requires
        forall|j: int| 0 <= j < m.len() ==> m[j].0 != env,
    ensures
        env_tags_lookup(m, env) == Seq::<Seq<char>>::empty(),
    decreases m.len(),
{
    if m.len() > 0 {
        lemma_env_lookup_absent(m.drop_first(), env);
    }
}


/// The first geographic data among the sources, if any.
pub open spec fn first_geographic(ss: Seq<EnrichContent>) -> Option<GeoContent>
    decreases ss.len(),
{
    if ss.len() == 0 {
        None
    } else if ss[0].geographic is Some {
        ss[0].geographic
    } else {
        first_geographic(ss.drop_first())
    }
}

/// The first contact data among the sources, if any.
pub open spec fn first_contact(ss: Seq<EnrichContent>) -> Option<ContactContent>
    decreases ss.len(),
{
    if ss.len() == 0 {
        None
    } else if ss[0].contact is Some {
        ss[0].contact
    } else {
        first_contact(ss.drop_first())
    }
}

/// The first business metadata among the sources, if any.
pub open spec fn first_business(ss: Seq<EnrichContent>) -> Option<BusinessContent>
    decreases ss.len(),
{
    if ss.len() == 0 {
        None
    } else if ss[0].business is Some {
        ss[0].business
    } else {
        first_business(ss.drop_first())
    }
}

/// The metadata writes of all sources, in order.
pub open spec fn flat_metadata(ss: Seq<EnrichContent>) -> Seq<FieldContent>
    decreases ss.len(),
{
    if ss.len() == 0 {
        Seq::empty()
    } else {
        flat_metadata(ss.drop_last()) + ss.last().metadata
    }
}

/// Whether any source carries the tag.
pub open spec fn union_tags_contains(ss: Seq<EnrichContent>, t: Seq<char>) -> bool {
    exists|i: int| 0 <= i < ss.len() && #[trigger] ss[i].tags.contains(t)
}

/// Appending one source keeps "first non-empty" semantics.
proof fn lemma_first_push(ss: Seq<EnrichContent>, x: EnrichContent)
    ensures
        first_geographic(ss.push(x)) == (if first_geographic(ss) is Some {
            first_geographic(ss)
        } else {
            x.geographic
        }),
        first_contact(ss.push(x)) == (if first_contact(ss) is Some {
            first_contact(ss)
        } else {
            x.contact
        }),
        first_business(ss.push(x)) == (if first_business(ss) is Some {
            first_business(ss)
        } else {
            x.business
        }),
    decreases ss.len(),
{
    if ss.len() == 0 {
        assert(ss.push(x)[0] == x);
        assert(ss.push(x).drop_first() =~= Seq::<EnrichContent>::empty());
        assert(first_geographic(Seq::<EnrichContent>::empty()) is None);
        assert(first_contact(Seq::<EnrichContent>::empty()) is None);
        assert(first_business(Seq::<EnrichContent>::empty()) is None);
    } else {
        assert(ss.push(x)[0] == ss[0]);
        assert(ss.push(x).drop_first() =~= ss.drop_first().push(x));
        lemma_first_push(ss.drop_first(), x);
    }
}

impl ObjectEnricher {
    /// Merge several enrichment sources into one: geographic, contact
    /// and business data are taken from the first source carrying them;
    /// the tags are the sorted union of all sources' tags; the metadata
    /// writes apply in source order, so a later source overrides an
    /// earlier one.
    pub fn merge_enrichment_sources(sources: Vec<EnrichmentData>) -> (r: EnrichmentData)
        ensures
            ({
                let views = sources@.map_values(|e: EnrichmentData| e@);
                &&& r@.geographic == first_geographic(views)
                &&& r@.contact == first_contact(views)
                &&& r@.business == first_business(views)
                &&& strictly_sorted(r@.tags)
                &&& forall|t: Seq<char>| #[trigger]
                    r@.tags.contains(t) <==> union_tags_contains(views, t)
                &&& forall|k: Seq<char>| #[trigger]
                    lookup(r@.metadata, k) == ops_last(flat_metadata(views), k)
            }),
    {
        let ghost views = sources@.map_values(|e: EnrichmentData| e@);
        let mut geographic: Option<GeographicData> = None;
        let mut contact: Option<ContactData> = None;
        let mut business: Option<BusinessMetadata> = None;
        let mut tags: Vec<String> = Vec::new();
        let mut metadata: Vec<CustomField> = Vec::new();
        let n = sources.len();
        let mut i: usize = 0;
        proof {
            assert(views.take(0) =~= Seq::<EnrichContent>::empty());
            assert(tags.deep_view() =~= Seq::<Seq<char>>::empty());
            assert(fields_of(metadata) =~= Seq::<FieldContent>::empty());
        }
        while i < n
            invariant
                n == views.len(),
                views == sources@.map_values(|e: EnrichmentData| e@),
                i <= n,
                (match geographic {
                    Some(g) => first_geographic(views.take(i as int)) == Some(g@),
                    None => first_geographic(views.take(i as int)) is None,
                }),
                (match contact {
                    Some(c) => first_contact(views.take(i as int)) == Some(c@),
                    None => first_contact(views.take(i as int)) is None,
                }),
                (match business {
                    Some(b) => first_business(views.take(i as int)) == Some(b@),
                    None => first_business(views.take(i as int)) is None,
                }),
                strictly_sorted(tags.deep_view()),
                forall|t: Seq<char>| #[trigger]
                    tags.deep_view().contains(t) <==> union_tags_contains(views.take(i as int), t),
                forall|k: Seq<char>| #[trigger]
                    lookup(fields_of(metadata), k) == ops_last(
                        flat_metadata(views.take(i as int)),
                        k,
                    ),
            decreases n - i,
        {
            let ghost t0 = views.take(i as int);
            let ghost t1 = views.take(i + 1);
            proof {
                assert(t1.drop_last() =~= t0);
                assert(t1.last() == views[i as int]);
                assert(t1 =~= t0.push(views[i as int]));
                lemma_first_push(t0, views[i as int]);
                assert(views[i as int] == sources@[i as int]@);
            }
            let source = &sources[i];
            if geographic.is_none() {
                if let Some(g) = &source.geographic {
                    geographic = Some(g.clone());
                }
            }
            if contact.is_none() {
                if let Some(c) = &source.contact {
                    contact = Some(c.clone());
                }
            }
            if business.is_none() {
                if let Some(b) = &source.business {
                    business = Some(b.clone());
                }
            }
            let ghost pre_tags = tags.deep_view();
            let source_tags = clone_strings_helper(&source.tags);
            tags = merge_sorted_tags(tags, source_tags);
            proof {
                assert forall|t: Seq<char>| #[trigger] tags.deep_view().contains(t)
                    implies union_tags_contains(t1, t) by {
                    if pre_tags.contains(t) {
                        let j = choose|j: int| 0 <= j < t0.len() && #[trigger] t0[j].tags.contains(t);
                        assert(t1[j].tags.contains(t));
                    } else {
                        assert(t1[i as int].tags.contains(t));
                    }
                }
                assert forall|t: Seq<char>| union_tags_contains(t1, t)
                    implies #[trigger] tags.deep_view().contains(t) by {
                    let j = choose|j: int| 0 <= j < t1.len() && #[trigger] t1[j].tags.contains(t);
                    if j < i as int {
                        assert(t0[j].tags.contains(t));
                    }
                }
            }
            let mut mj: usize = 0;
            let ghost base_ops = flat_metadata(t0);
            let ghost meta_i = views[i as int].metadata;
            while mj < source.metadata.len()
                invariant
                    mj <= source.metadata@.len(),
                    meta_i == fields_of(source.metadata),
                    forall|k: Seq<char>| #[trigger]
                        lookup(fields_of(metadata), k) == ops_last(
                            base_ops + meta_i.take(mj as int),
                            k,
                        ),
                decreases source.metadata@.len() - mj,
            {
                let key = source.metadata[mj].key.clone();
                let value = source.metadata[mj].value.clone();
                proof {
                    assert(meta_i[mj as int] == source.metadata@[mj as int]@);
                }
                set_field(&mut metadata, key, value);
                proof {
                    let o1 = base_ops + meta_i.take(mj + 1);
                    assert(o1.drop_last() =~= base_ops + meta_i.take(mj as int));
                    assert(o1.last() == meta_i[mj as int]);
                    assert forall|k: Seq<char>| #[trigger] lookup(fields_of(metadata), k)
                        == ops_last(o1, k) by {
                        if k == meta_i[mj as int].key {
                            assert(ops_last(o1, k) == Some(meta_i[mj as int].value));
                        } else {
                            assert(ops_last(o1, k) == ops_last(
                                base_ops + meta_i.take(mj as int),
                                k,
                            ));
                        }
                    }
                }
                mj += 1;
            }
            proof {
                assert(meta_i.take(meta_i.len() as int) =~= meta_i);
                assert(flat_metadata(t1) =~= base_ops + meta_i);
            }
            i += 1;
        }
        proof {
            assert(views.take(n as int) =~= views);
        }
        let r = EnrichmentData { geographic, contact, business, tags, metadata };
        r
    }
}

/// Enriching is idempotent: enriching an already enriched site again,
/// with the same enrichment data and configuration, changes nothing —
/// neither any field nor the tag set.
pub proof fn lemma_enrich_site_idempotent(
    s: SiteContent,
    e: EnrichContent,
    c: EnricherContent,
    r1: SiteContent,
    r2: SiteContent,
)
    requires
        enrich_site_post(s, e, c, r1),
        enrich_site_post(r1, e, c, r2),
    ensures
        r2 == r1,
{
    // scalar and fill-once fields keep their values on the second pass
    assert(r2.latitude == r1.latitude);
    assert(r2.longitude == r1.longitude);
    assert(r2.description == r1.description);
    assert(r2.facility == r1.facility);
    assert(r2.contact_name == r1.contact_name);
    assert(r2.contact_email == r1.contact_email);
    assert(r2.contact_phone == r1.contact_phone);
    // custom fields: the same writes land on already-written fields
    if e.business is Some {
        let ops = ops_of(e);
        let cf1 = r1.custom_fields->0;
        let cf2 = r2.custom_fields->0;
        assert forall|k: Seq<char>| #[trigger] lookup(cf2, k) == lookup(cf1, k) by {
            assert(lookup(cf1, k) == merged_lookup(s.custom_fields, ops, k));
            assert(lookup(cf2, k) == merged_lookup(r1.custom_fields, ops, k));
        }
        lemma_fields_sorted_unique(cf2, cf1);
        assert(r2.custom_fields == r1.custom_fields);
    } else {
        assert(r2.custom_fields == r1.custom_fields);
    }
    // tags: the additions are already present, so the sorted set is stable
    assert(r1.status == s.status);
    let adds = site_tag_additions(c, e, s.status);
    let t1 = r1.tags->0;
    let t2 = r2.tags->0;
    assert forall|x: Seq<char>| #[trigger] t2.contains(x) <==> t1.contains(x) by {
        assert(t2.contains(x) <==> (t1.contains(x) || adds.contains(x)));
        if adds.contains(x) {
            assert(t1.contains(x));
        }
    }
    lemma_sorted_unique(t2, t1);
    assert(r2.tags == r1.tags);
    assert(r2 =~= r1);
}

/// Enriching a device is idempotent in the same way.
pub proof fn lemma_enrich_device_idempotent(
    s: DeviceContent,
    e: EnrichContent,
    c: EnricherContent,
    r1: DeviceContent,
    r2: DeviceContent,
)
    requires
        enrich_device_post(s, e, c, r1),
        enrich_device_post(r1, e, c, r2),
    ensures
        r2 == r1,
{
    assert(r2.name == r1.name);
    assert(r2.asset_tag == r1.asset_tag);
    if e.business is Some {
        let ops = ops_of(e);
        let cf1 = r1.custom_fields->0;
        let cf2 = r2.custom_fields->0;
        assert forall|k: Seq<char>| #[trigger] lookup(cf2, k) == lookup(cf1, k) by {
            assert(lookup(cf1, k) == merged_lookup(s.custom_fields, ops, k));
            assert(lookup(cf2, k) == merged_lookup(r1.custom_fields, ops, k));
        }
        lemma_fields_sorted_unique(cf2, cf1);
        assert(r2.custom_fields == r1.custom_fields);
    } else {
        assert(r2.custom_fields == r1.custom_fields);
    }
    let adds = device_tag_additions(c, e);
    let t1 = r1.tags->0;
    let t2 = r2.tags->0;
    assert forall|x: Seq<char>| #[trigger] t2.contains(x) <==> t1.contains(x) by {
        assert(t2.contains(x) <==> (t1.contains(x) || adds.contains(x)));
        if adds.contains(x) {
            assert(t1.contains(x));
        }
    }
    lemma_sorted_unique(t2, t1);
    assert(r2.tags == r1.tags);
    assert(r2 =~= r1);
}

} // verus!
