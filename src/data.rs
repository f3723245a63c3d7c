use vstd::prelude::*;

use crate::icon::{icon_file_name, registry_wf, Icon, IconError, IconsUnverified};

verus! {

/// The site owner's full name.
pub const FULLNAME: &'static str = "Hannes Körber";

/// The views of a sequence of string slices.
pub open spec fn strs(v: Seq<&'static str>) -> Seq<Seq<char>> {
    v.map_values(|s: &'static str| s@)
}

/// The view of an optional string slice.
pub open spec fn opt_str(o: Option<&'static str>) -> Option<Seq<char>> {
    match o {
        Some(s) => Some(s@),
        None => None,
    }
}

/// Every identifier has its icon file among `files`.
pub open spec fn all_available(files: Seq<Seq<char>>, ids: Seq<Seq<char>>) -> bool {
    forall|j: int| 0 <= j < ids.len() ==> files.contains(icon_file_name(#[trigger] ids[j]))
}

/// The error names the first identifier of `ids` whose icon file is not among
/// `files`.
pub open spec fn first_missing(files: Seq<Seq<char>>, ids: Seq<Seq<char>>, e: IconError) -> bool {
    match e {
        IconError::Missing(id) => exists|k: int|
            0 <= k < ids.len() && #[trigger] ids[k] == id@ && !files.contains(icon_file_name(id@))
                && all_available(files, ids.subrange(0, k)),
        IconError::Superfluous(_) => false,
    }
}

/// The identifiers of a table whose rows reference icons, row by row.
pub open spec fn flat(groups: Seq<Seq<Seq<char>>>) -> Seq<Seq<char>>
    decreases groups.len(),
{
    if groups.len() == 0 {
        Seq::empty()
    } else {
        flat(groups.drop_last()) + groups.last()
    }
}

proof fn lemma_flat_step(groups: Seq<Seq<Seq<char>>>, i: int)
    requires
        0 <= i < groups.len(),
    ensures
        flat(groups.subrange(0, i + 1)) == flat(groups.subrange(0, i)) + groups[i],
{
    assert(groups.subrange(0, i + 1).drop_last() =~= groups.subrange(0, i));
}

proof fn lemma_flat_prefix(groups: Seq<Seq<Seq<char>>>, i: int)
    requires
        0 <= i <= groups.len(),
    ensures
        flat(groups.subrange(0, i)).len() <= flat(groups).len(),
        flat(groups).subrange(0, flat(groups.subrange(0, i)).len() as int) == flat(
            groups.subrange(0, i),
        ),
    decreases groups.len() - i,
{
    if i == groups.len() {
        assert(groups.subrange(0, i) =~= groups);
        assert(flat(groups).subrange(0, flat(groups).len() as int) =~= flat(groups));
    } else {
        lemma_flat_prefix(groups, i + 1);
        lemma_flat_step(groups, i);
        let a = flat(groups.subrange(0, i));
        let b = flat(groups.subrange(0, i + 1));
        assert(flat(groups).subrange(0, a.len() as int) =~= b.subrange(0, a.len() as int));
        assert(b.subrange(0, a.len() as int) =~= a);
    }
}

/// A failure on row `i`, after every earlier row passed, is a failure on the
/// first missing identifier of the whole table.
proof fn lemma_lift_missing(
    files: Seq<Seq<char>>,
    groups: Seq<Seq<Seq<char>>>,
    i: int,
    e: IconError,
)
    requires
        0 <= i < groups.len(),
        all_available(files, flat(groups.subrange(0, i))),
        first_missing(files, groups[i], e),
    ensures
        first_missing(files, flat(groups), e),
        !all_available(files, flat(groups)),
{
    let id = e->Missing_0;
    let k = choose|k: int|
        0 <= k < groups[i].len() && #[trigger] groups[i][k] == id@ && !files.contains(
            icon_file_name(id@),
        ) && all_available(files, groups[i].subrange(0, k));
    lemma_flat_step(groups, i);
    lemma_flat_prefix(groups, i + 1);
    let a = flat(groups.subrange(0, i));
    let b = flat(groups.subrange(0, i + 1));
    let all = flat(groups);
    let p = a.len() + k;
    assert(b[p] == groups[i][k]);
    assert(all[p] == b[p]);
    assert(!files.contains(icon_file_name(all[p])));
    assert forall|j: int| 0 <= j < p implies files.contains(
        icon_file_name(#[trigger] all.subrange(0, p)[j]),
    ) by {
        assert(all.subrange(0, p)[j] == b[j]);
        if j < a.len() {
            assert(b[j] == a[j]);
        } else {
            assert(b[j] == groups[i][j - a.len()]);
            assert(groups[i].subrange(0, k)[j - a.len()] == groups[i][j - a.len()]);
        }
    }
}

/// All identifiers of two consecutive parts of a table are available.
proof fn lemma_available_concat(files: Seq<Seq<char>>, a: Seq<Seq<char>>, b: Seq<Seq<char>>)
    requires
        all_available(files, a),
        all_available(files, b),
    ensures
        all_available(files, a + b),
{
    assert forall|j: int| 0 <= j < (a + b).len() implies files.contains(
        icon_file_name(#[trigger] (a + b)[j]),
    ) by {
        if j < a.len() {
            assert((a + b)[j] == a[j]);
        } else {
            assert((a + b)[j] == b[j - a.len()]);
        }
    }
}

/// A certification badge shown in the footer.
#[derive(Debug)]
pub struct Certification {
    pub link: &'static str,
    pub title: &'static str,
    pub image: String,
}

impl View for Certification {
    type V = (Seq<char>, Seq<char>, Seq<char>);

    open spec fn view(&self) -> (Seq<char>, Seq<char>, Seq<char>) {
        (self.link@, self.title@, self.image@)
    }
}

/// A social profile linked from the footer.
#[derive(Debug)]
pub struct Social {
    pub name: &'static str,
    pub link: String,
    pub icon: Icon,
    pub description: Option<&'static str>,
}

/// A social profile as plain values: name, link, icon identifier and
/// description.
pub type SocialRow = (Seq<char>, Seq<char>, Seq<char>, Option<Seq<char>>);

impl View for Social {
    type V = SocialRow;

    open spec fn view(&self) -> SocialRow {
        (self.name@, self.link@, self.icon@, opt_str(self.description))
    }
}

/// The certification badges.
pub open spec fn certification_table() -> Seq<(Seq<char>, Seq<char>, Seq<char>)> {
    seq![
        (
            "https://www.credly.com/badges/870a6345-ed4e-416e-9c46-c9af9c6d2c77/public_url"@,
            "AWS Certified Solutions Architect – Associate"@,
            "/assets/badges/aws-certified-solutions-architect-associate.png"@,
        ),
    ]
}

pub fn certifications() -> (r: Vec<Certification>)
    ensures
        r@.map_values(|c: Certification| c@) == certification_table(),
{
    let r = vec![Certification {
        link: "https://www.credly.com/badges/870a6345-ed4e-416e-9c46-c9af9c6d2c77/public_url",
        title: "AWS Certified Solutions Architect – Associate",
        image: String::from_str("/assets/badges/aws-certified-solutions-architect-associate.png"),
    }];
    assert(r@.map_values(|c: Certification| c@) =~= certification_table());
    r
}

/// The social profiles.
pub open spec fn social_table() -> Seq<SocialRow> {
    seq![
        ("Github"@, "https://github.com/hakoerber"@, "Github"@, None),
        ("Linkedin"@, "https://www.linkedin.com/in/hannes-koerber"@, "Linkedin"@, None),
        ("Keybase"@, "https://keybase.io/hakoerber"@, "Keybase"@, None),
        ("E-Mail"@, "mailto:hannes.koerber@gmail.com"@, "Email"@, Some("Send me an e-mail"@)),
        ("RSS"@, "/rss.xml"@, "Rss"@, Some("Follow my blog on RSS"@)),
    ]
}

/// The icons of the social profiles, in table order.
pub open spec fn social_icon_ids() -> Seq<Seq<char>> {
    social_table().map_values(|r: SocialRow| r.2)
}

/// The social profiles, each with its icon referenced in the registry.
/// Succeeds exactly when every profile's icon file is available; otherwise
/// fails on the first profile whose icon file is missing.
pub fn socials(icons: &mut IconsUnverified) -> (r: Result<Vec<Social>, IconError>)
    requires
        registry_wf(old(icons)@),
    ensures
        registry_wf(final(icons)@),
        final(icons)@.0 == old(icons)@.0,
        r is Ok <==> all_available(old(icons)@.0, social_icon_ids()),
        match r {
            Ok(v) => v@.map_values(|s: Social| s@) == social_table() && final(icons)@.1 == old(
                icons,
            )@.1 + social_icon_ids(),
            Err(e) => first_missing(old(icons)@.0, social_icon_ids(), e),
        },
{
    let rows: Vec<(&'static str, &'static str, &'static str, Option<&'static str>)> = vec![
        ("Github", "https://github.com/hakoerber", "Github", None),
        ("Linkedin", "https://www.linkedin.com/in/hannes-koerber", "Linkedin", None),
        ("Keybase", "https://keybase.io/hakoerber", "Keybase", None),
        ("E-Mail", "mailto:hannes.koerber@gmail.com", "Email", Some("Send me an e-mail")),
        ("RSS", "/rss.xml", "Rss", Some("Follow my blog on RSS")),
    ];
    let ghost table = social_table();
    let ghost ids = social_icon_ids();
    assert(rows@.map_values(
        |t: (&'static str, &'static str, &'static str, Option<&'static str>)|
            (t.0@, t.1@, t.2@, opt_str(t.3)),
    ) =~= table);
    assert forall|k: int| 0 <= k < rows@.len() implies (#[trigger] rows@[k]).0@ == table[k].0
        && rows@[k].1@ == table[k].1 && rows@[k].2@ == table[k].2 && opt_str(rows@[k].3)
        == table[k].3 by {
        assert(rows@.map_values(
            |t: (&'static str, &'static str, &'static str, Option<&'static str>)|
                (t.0@, t.1@, t.2@, opt_str(t.3)),
        )[k] == table[k]);
    }
    let ghost start = icons@;
    let mut out: Vec<Social> = Vec::new();
    let mut i: usize = 0;
    while i < rows.len()
        invariant
            0 <= i <= rows@.len(),
            rows@.len() == table.len(),
            table == social_table(),
            ids == social_icon_ids(),
            forall|k: int|
                0 <= k < rows@.len() ==> (#[trigger] rows@[k]).0@ == table[k].0 && rows@[k].1@
                    == table[k].1 && rows@[k].2@ == table[k].2 && opt_str(rows@[k].3) == table[k].3,
            start == old(icons)@,
            registry_wf(icons@),
            icons@.0 == start.0,
            icons@.1 == start.1 + ids.subrange(0, i as int),
            all_available(start.0, ids.subrange(0, i as int)),
            out@.map_values(|s: Social| s@) == table.subrange(0, i as int),
        decreases rows@.len() - i,
    {
        let (name, link, id, description) = rows[i];
        assert(rows@[i as int].2 == id);
        assert(ids[i as int] == table[i as int].2);
        assert(ids[i as int] == id@);
        let icon = match icons.reference(id) {
            Ok(icon) => icon,
            Err(e) => {
                assert(first_missing(start.0, ids, e)) by {
                    assert(ids[i as int] == id@);
                };
                return Err(e);
            },
        };
        let ghost before = out@;
        out.push(Social { name, link: String::from_str(link), icon, description });
        assert(out@.map_values(|s: Social| s@) =~= before.map_values(|s: Social| s@).push(
            table[i as int],
        ));
        assert(table.subrange(0, i + 1) =~= table.subrange(0, i as int).push(table[i as int]));
        assert(ids.subrange(0, i + 1) =~= ids.subrange(0, i as int).push(id@));
        assert(start.1 + ids.subrange(0, i + 1) =~= (start.1 + ids.subrange(0, i as int)).push(id@));
        i = i + 1;
    }
    assert(table.subrange(0, i as int) =~= table);
    assert(ids.subrange(0, i as int) =~= ids);
    Ok(out)
}

/// How well a technology is known.
#[derive(Clone, Copy, Debug, PartialEq, Eq, Structural)]
pub enum TechLevel {
    Pro,
    Normal,
}

impl TechLevel {
    /// The level's name as the skills page shows it.
    pub fn name(&self) -> (r: &'static str)
        ensures
            r@ == match self {
                TechLevel::Pro => "pro"@,
                TechLevel::Normal => "normal"@,
            },
    {
        match self {
            TechLevel::Pro => "pro",
            TechLevel::Normal => "normal",
        }
    }
}

/// A technology on the skills page.
#[derive(Debug)]
pub struct Technology {
    pub name: &'static str,
    pub level: TechLevel,
    pub icon: Icon,
}

/// A technology as plain values: name, level and icon identifier.
pub type TechRow = (Seq<char>, TechLevel, Seq<char>);

impl View for Technology {
    type V = TechRow;

    open spec fn view(&self) -> TechRow {
        (self.name@, self.level, self.icon@)
    }
}

/// A group of technologies on the skills page.
#[derive(Debug)]
pub struct TechCategory {
    pub name: &'static str,
    pub technologies: Vec<Technology>,
}

/// A category as plain values: its name and its technologies.
pub type CategoryRow = (Seq<char>, Seq<TechRow>);

impl View for TechCategory {
    type V = CategoryRow;

    open spec fn view(&self) -> CategoryRow {
        (self.name@, self.technologies@.map_values(|t: Technology| t@))
    }
}

/// The technology categories of the skills page.
pub open spec fn tech_table() -> Seq<CategoryRow> {
    seq![
        (
            "Containerization"@,
            seq![
                ("Kubernetes"@, TechLevel::Pro, "Kubernetes"@),
                ("Docker"@, TechLevel::Pro, "Docker"@),
                ("cri-o"@, TechLevel::Normal, "CriO"@),
                ("Containerd"@, TechLevel::Normal, "Containerd"@),
                ("OCI"@, TechLevel::Normal, "Oci"@),
                ("Rancher"@, TechLevel::Normal, "Rancher"@),
            ],
        ),
        (
            "Databases"@,
            seq![
                ("PostgreSQL"@, TechLevel::Pro, "Postgresql"@),
                ("ElasticSearch"@, TechLevel::Pro, "Elasticsearch"@),
                ("MySQL"@, TechLevel::Pro, "Mysql"@),
                ("Redis"@, TechLevel::Normal, "Redis"@),
                ("InfluxDB"@, TechLevel::Normal, "Influx"@),
                ("SQLite"@, TechLevel::Normal, "Sqlite"@),
            ],
        ),
        (
            "Configuration Management"@,
            seq![
                ("Terraform"@, TechLevel::Pro, "Terraform"@),
                ("Ansible"@, TechLevel::Pro, "Ansible"@),
                ("Pulumi"@, TechLevel::Pro, "Pulumi"@),
                ("Packer"@, TechLevel::Normal, "Packer"@),
                ("Puppet"@, TechLevel::Normal, "Puppet"@),
                ("SaltStack"@, TechLevel::Normal, "Saltstack"@),
            ],
        ),
        (
            "Web Development"@,
            seq![
                ("HTML"@, TechLevel::Pro, "Html5"@),
                ("CCS"@, TechLevel::Pro, "Css"@),
                ("JavaScript"@, TechLevel::Normal, "Javascript"@),
                ("Flask"@, TechLevel::Normal, "Flask"@),
                ("Svelte"@, TechLevel::Normal, "Svelte"@),
                ("ReactJS"@, TechLevel::Normal, "Reactjs"@),
            ],
        ),
        (
            "Programming"@,
            seq![
                ("Python"@, TechLevel::Pro, "Python"@),
                ("Rust"@, TechLevel::Pro, "Rust"@),
                ("Go"@, TechLevel::Pro, "Go"@),
                ("TypeScript"@, TechLevel::Normal, "Typescript"@),
                ("Bash"@, TechLevel::Normal, "Bash"@),
                ("C"@, TechLevel::Normal, "C"@),
            ],
        ),
        (
            "Observability"@,
            seq![
                ("Prometheus"@, TechLevel::Pro, "Prometheus"@),
                ("Grafana"@, TechLevel::Pro, "Grafana"@),
                ("Kibana"@, TechLevel::Normal, "Kibana"@),
                ("OpsGenie"@, TechLevel::Normal, "Opsgenie"@),
                ("OpenTelemetry"@, TechLevel::Normal, "Opentelemetry"@),
                ("Jaeger"@, TechLevel::Normal, "Jaeger"@),
            ],
        ),
        (
            "Development"@,
            seq![
                ("Git"@, TechLevel::Pro, "Git"@),
                ("Neovim"@, TechLevel::Pro, "Neovim"@),
                ("GitLab"@, TechLevel::Normal, "Gitlab"@),
                ("GitHub"@, TechLevel::Normal, "Github"@),
                ("OpenAPI"@, TechLevel::Normal, "Swagger"@),
                ("Jira"@, TechLevel::Normal, "Jira"@),
            ],
        ),
        (
            "Automation"@,
            seq![
                ("Drone"@, TechLevel::Pro, "Drone"@),
                ("GitLab CI"@, TechLevel::Pro, "Gitlab"@),
                ("Jenkins"@, TechLevel::Normal, "Jenkins"@),
            ],
        ),
        (
            "Cloud Providers"@,
            seq![
                ("AWS"@, TechLevel::Pro, "Aws"@),
                ("DigitalOcean"@, TechLevel::Normal, "Digitalocean"@),
                ("Hetzner"@, TechLevel::Normal, "Hetzner"@),
            ],
        ),
        (
            "Web Servers"@,
            seq![
                ("Nginx"@, TechLevel::Pro, "Nginx"@),
                ("Apache"@, TechLevel::Normal, "Apache"@),
                ("HAProxy"@, TechLevel::Normal, "Haproxy"@),
                ("OpenResty"@, TechLevel::Normal, "Openresty"@),
            ],
        ),
        (
            "Operating Systems"@,
            seq![
                ("CentOS"@, TechLevel::Pro, "Centos"@),
                ("Debian"@, TechLevel::Pro, "Debian"@),
                ("Arch Linux"@, TechLevel::Pro, "ArchLinux"@),
                ("Ubuntu"@, TechLevel::Normal, "Ubuntu"@),
                ("Fedora"@, TechLevel::Normal, "Fedora"@),
                ("FreeBSD"@, TechLevel::Normal, "Freebsd"@),
            ],
        ),
        (
            "Security"@,
            seq![
                ("Keycloak"@, TechLevel::Pro, "Keycloak"@),
                ("OpenID Connect"@, TechLevel::Pro, "OpenidConnect"@),
                ("GnuPG"@, TechLevel::Normal, "Gnupg"@),
                ("Let's Encrypt"@, TechLevel::Normal, "Letsencrypt"@),
                ("Wireshark"@, TechLevel::Normal, "Wireshark"@),
                ("OpenVPN"@, TechLevel::Normal, "Openvpn"@),
            ],
        ),
        (
            "Virtualization"@,
            seq![
                ("Libvirt / KVM"@, TechLevel::Pro, "Libvirt"@),
                ("Vagrant"@, TechLevel::Pro, "Vagrant"@),
                ("Qemu"@, TechLevel::Normal, "Qemu"@),
            ],
        ),
        (
            "Storage"@,
            seq![
                ("Ceph"@, TechLevel::Pro, "Ceph"@),
                ("ZFS"@, TechLevel::Normal, "Openzfs"@),
            ],
        ),
    ]
}

/// The icons of each category, category by category.
pub open spec fn tech_icon_groups() -> Seq<Seq<Seq<char>>> {
    tech_table().map_values(|c: CategoryRow| c.1.map_values(|t: TechRow| t.2))
}

/// The icons of all technologies, in table order.
pub open spec fn tech_icon_ids() -> Seq<Seq<char>> {
    flat(tech_icon_groups())
}

/// The view of the rows that the table is written with.
spec fn tech_rows_view(rows: Seq<(&'static str, Vec<(&'static str, TechLevel, &'static str)>)>) -> Seq<
    CategoryRow,
> {
    rows.map_values(
        |r: (&'static str, Vec<(&'static str, TechLevel, &'static str)>)|
            (r.0@, r.1@.map_values(|t: (&'static str, TechLevel, &'static str)| (t.0@, t.1, t.2@))),
    )
}

/// The technology categories of the skills page, each technology's icon
/// referenced in the registry. Succeeds exactly when every technology's icon
/// file is available; otherwise fails on the first technology, in table order,
/// whose icon file is missing.
pub fn tech_categories(icons: &mut IconsUnverified) -> (r: Result<Vec<TechCategory>, IconError>)
    requires
        registry_wf(old(icons)@),
    ensures
        registry_wf(final(icons)@),
        final(icons)@.0 == old(icons)@.0,
        r is Ok <==> all_available(old(icons)@.0, tech_icon_ids()),
        match r {
            Ok(v) => v@.map_values(|c: TechCategory| c@) == tech_table() && final(icons)@.1 == old(
                icons,
            )@.1 + tech_icon_ids(),
            Err(e) => first_missing(old(icons)@.0, tech_icon_ids(), e),
        },
{
    let rows: Vec<(&'static str, Vec<(&'static str, TechLevel, &'static str)>)> = vec![
        (
            "Containerization",
            vec![
                ("Kubernetes", TechLevel::Pro, "Kubernetes"),
                ("Docker", TechLevel::Pro, "Docker"),
                ("cri-o", TechLevel::Normal, "CriO"),
                ("Containerd", TechLevel::Normal, "Containerd"),
                ("OCI", TechLevel::Normal, "Oci"),
                ("Rancher", TechLevel::Normal, "Rancher"),
            ],
        ),
        (
            "Databases",
            vec![
                ("PostgreSQL", TechLevel::Pro, "Postgresql"),
                ("ElasticSearch", TechLevel::Pro, "Elasticsearch"),
                ("MySQL", TechLevel::Pro, "Mysql"),
                ("Redis", TechLevel::Normal, "Redis"),
                ("InfluxDB", TechLevel::Normal, "Influx"),
                ("SQLite", TechLevel::Normal, "Sqlite"),
            ],
        ),
        (
            "Configuration Management",
            vec![
                ("Terraform", TechLevel::Pro, "Terraform"),
                ("Ansible", TechLevel::Pro, "Ansible"),
                ("Pulumi", TechLevel::Pro, "Pulumi"),
                ("Packer", TechLevel::Normal, "Packer"),
                ("Puppet", TechLevel::Normal, "Puppet"),
                ("SaltStack", TechLevel::Normal, "Saltstack"),
            ],
        ),
        (
            "Web Development",
            vec![
                ("HTML", TechLevel::Pro, "Html5"),
                ("CCS", TechLevel::Pro, "Css"),
                ("JavaScript", TechLevel::Normal, "Javascript"),
                ("Flask", TechLevel::Normal, "Flask"),
                ("Svelte", TechLevel::Normal, "Svelte"),
                ("ReactJS", TechLevel::Normal, "Reactjs"),
            ],
        ),
        (
            "Programming",
            vec![
                ("Python", TechLevel::Pro, "Python"),
                ("Rust", TechLevel::Pro, "Rust"),
                ("Go", TechLevel::Pro, "Go"),
                ("TypeScript", TechLevel::Normal, "Typescript"),
                ("Bash", TechLevel::Normal, "Bash"),
                ("C", TechLevel::Normal, "C"),
            ],
        ),
        (
            "Observability",
            vec![
                ("Prometheus", TechLevel::Pro, "Prometheus"),
                ("Grafana", TechLevel::Pro, "Grafana"),
                ("Kibana", TechLevel::Normal, "Kibana"),
                ("OpsGenie", TechLevel::Normal, "Opsgenie"),
                ("OpenTelemetry", TechLevel::Normal, "Opentelemetry"),
                ("Jaeger", TechLevel::Normal, "Jaeger"),
            ],
        ),
        (
            "Development",
            vec![
                ("Git", TechLevel::Pro, "Git"),
                ("Neovim", TechLevel::Pro, "Neovim"),
                ("GitLab", TechLevel::Normal, "Gitlab"),
                ("GitHub", TechLevel::Normal, "Github"),
                ("OpenAPI", TechLevel::Normal, "Swagger"),
                ("Jira", TechLevel::Normal, "Jira"),
            ],
        ),
        (
            "Automation",
            vec![
                ("Drone", TechLevel::Pro, "Drone"),
                ("GitLab CI", TechLevel::Pro, "Gitlab"),
                ("Jenkins", TechLevel::Normal, "Jenkins"),
            ],
        ),
        (
            "Cloud Providers",
            vec![
                ("AWS", TechLevel::Pro, "Aws"),
                ("DigitalOcean", TechLevel::Normal, "Digitalocean"),
                ("Hetzner", TechLevel::Normal, "Hetzner"),
            ],
        ),
        (
            "Web Servers",
            vec![
                ("Nginx", TechLevel::Pro, "Nginx"),
                ("Apache", TechLevel::Normal, "Apache"),
                ("HAProxy", TechLevel::Normal, "Haproxy"),
                ("OpenResty", TechLevel::Normal, "Openresty"),
            ],
        ),
        (
            "Operating Systems",
            vec![
                ("CentOS", TechLevel::Pro, "Centos"),
                ("Debian", TechLevel::Pro, "Debian"),
                ("Arch Linux", TechLevel::Pro, "ArchLinux"),
                ("Ubuntu", TechLevel::Normal, "Ubuntu"),
                ("Fedora", TechLevel::Normal, "Fedora"),
                ("FreeBSD", TechLevel::Normal, "Freebsd"),
            ],
        ),
        (
            "Security",
            vec![
                ("Keycloak", TechLevel::Pro, "Keycloak"),
                ("OpenID Connect", TechLevel::Pro, "OpenidConnect"),
                ("GnuPG", TechLevel::Normal, "Gnupg"),
                ("Let's Encrypt", TechLevel::Normal, "Letsencrypt"),
                ("Wireshark", TechLevel::Normal, "Wireshark"),
                ("OpenVPN", TechLevel::Normal, "Openvpn"),
            ],
        ),
        (
            "Virtualization",
            vec![
                ("Libvirt / KVM", TechLevel::Pro, "Libvirt"),
                ("Vagrant", TechLevel::Pro, "Vagrant"),
                ("Qemu", TechLevel::Normal, "Qemu"),
            ],
        ),
        (
            "Storage",
            vec![
                ("Ceph", TechLevel::Pro, "Ceph"),
                ("ZFS", TechLevel::Normal, "Openzfs"),
            ],
        ),
    ];
    let ghost table = tech_table();
    let ghost groups = tech_icon_groups();
    assert(tech_rows_view(rows@) =~~= table);
    let ghost start = icons@;
    let mut out: Vec<TechCategory> = Vec::new();
    let mut i: usize = 0;
    while i < rows.len()
        invariant
            0 <= i <= rows@.len(),
            table == tech_table(),
            groups == tech_icon_groups(),
            tech_rows_view(rows@) == table,
            rows@.len() == table.len(),
            start == old(icons)@,
            registry_wf(icons@),
            icons@.0 == start.0,
            icons@.1 == start.1 + flat(groups.subrange(0, i as int)),
            all_available(start.0, flat(groups.subrange(0, i as int))),
            out@.map_values(|c: TechCategory| c@) == table.subrange(0, i as int),
        decreases rows@.len() - i,
    {
        let ghost row = table[i as int];
        let ghost g = groups[i as int];
        let ghost mid = icons@;
        assert(tech_rows_view(rows@)[i as int] == row);
        let mut techs: Vec<Technology> = Vec::new();
        let mut j: usize = 0;
        while j < rows[i].1.len()
            invariant
                0 <= i < rows@.len(),
                tech_rows_view(rows@) == table,
                row == table[i as int],
                start == old(icons)@,
                g == groups[i as int],
                groups == tech_icon_groups(),
                table == tech_table(),
                g == row.1.map_values(|t: TechRow| t.2),
                rows@[i as int].1@.len() == row.1.len(),
                0 <= j <= row.1.len(),
                mid.0 == start.0,
                mid.1 == start.1 + flat(groups.subrange(0, i as int)),
                all_available(start.0, flat(groups.subrange(0, i as int))),
                registry_wf(icons@),
                icons@.0 == start.0,
                icons@.1 == mid.1 + g.subrange(0, j as int),
                all_available(start.0, g.subrange(0, j as int)),
                techs@.map_values(|t: Technology| t@) == row.1.subrange(0, j as int),
            decreases row.1.len() - j,
        {
            let (name, level, id) = rows[i].1[j];
            assert(row.1[j as int] == (name@, level, id@));
            assert(g[j as int] == id@);
            let icon = match icons.reference(id) {
                Ok(icon) => icon,
                Err(e) => {
                    proof {
                        assert(first_missing(start.0, g, e));
                        lemma_lift_missing(start.0, groups, i as int, e);
                    }
                    return Err(e);
                },
            };
            let ghost before = techs@;
            techs.push(Technology { name, level, icon });
            assert(techs@.map_values(|t: Technology| t@) =~= before.map_values(
                |t: Technology| t@,
            ).push(row.1[j as int]));
            assert(row.1.subrange(0, j + 1) =~= row.1.subrange(0, j as int).push(row.1[j as int]));
            assert(g.subrange(0, j + 1) =~= g.subrange(0, j as int).push(id@));
            assert(mid.1 + g.subrange(0, j + 1) =~= (mid.1 + g.subrange(0, j as int)).push(id@));
            j = j + 1;
        }
        proof {
            assert(row.1.subrange(0, j as int) =~= row.1);
            assert(g.subrange(0, j as int) =~= g);
            lemma_flat_step(groups, i as int);
            lemma_available_concat(start.0, flat(groups.subrange(0, i as int)), g);
            assert(start.1 + flat(groups.subrange(0, i as int)) + g =~= start.1 + flat(
                groups.subrange(0, i + 1),
            ));
        }
        let ghost before = out@;
        out.push(TechCategory { name: rows[i].0, technologies: techs });
        assert(out@.map_values(|c: TechCategory| c@) =~= before.map_values(
            |c: TechCategory| c@,
        ).push(row));
        assert(table.subrange(0, i + 1) =~= table.subrange(0, i as int).push(row));
        i = i + 1;
    }
    assert(table.subrange(0, i as int) =~= table);
    assert(groups.len() == table.len());
    assert(groups.subrange(0, i as int) =~= groups);
    Ok(out)
}

/// The picture of a project: an icon, or the URL of an image.
#[derive(Debug)]
pub enum ProjectFigure {
    Icon(Icon),
    Picture(&'static str),
}

/// A project's picture as plain values.
pub enum FigureView {
    Icon(Seq<char>),
    Picture(Seq<char>),
}

pub open spec fn figure_view(f: Option<ProjectFigure>) -> Option<FigureView> {
    match f {
        Some(ProjectFigure::Icon(i)) => Some(FigureView::Icon(i@)),
        Some(ProjectFigure::Picture(u)) => Some(FigureView::Picture(u@)),
        None => None,
    }
}

/// The identifier of a figure's icon, if it is one.
pub open spec fn figure_ids(f: Option<FigureView>) -> Seq<Seq<char>> {
    match f {
        Some(FigureView::Icon(id)) => seq![id],
        _ => Seq::empty(),
    }
}

#[derive(Debug)]
pub struct ProjectTags {
    pub languages: Vec<&'static str>,
    pub tech: Vec<&'static str>,
}

#[derive(Debug)]
pub struct ProjectLinks {
    pub github: &'static str,
    pub homepage: Option<&'static str>,
}

/// One of the site owner's own projects.
#[derive(Debug)]
pub struct Project {
    pub title: &'static str,
    pub figure: Option<ProjectFigure>,
    pub description: Vec<&'static str>,
    pub tags: ProjectTags,
    pub links: ProjectLinks,
}

/// A project of others that the site owner contributed to.
#[derive(Debug)]
pub struct ContributionProject {
    pub title: &'static str,
    pub figure: Option<ProjectFigure>,
    pub contributions: Vec<&'static str>,
    pub tags: ProjectTags,
    pub links: ProjectLinks,
}

/// A project as plain values: title, figure, paragraphs (description or
/// contributions), languages, technologies, GitHub link and homepage.
pub type ProjectRow = (
    Seq<char>,
    Option<FigureView>,
    Seq<Seq<char>>,
    Seq<Seq<char>>,
    Seq<Seq<char>>,
    Seq<char>,
    Option<Seq<char>>,
);

impl View for Project {
    type V = ProjectRow;

    open spec fn view(&self) -> ProjectRow {
        (
            self.title@,
            figure_view(self.figure),
            strs(self.description@),
            strs(self.tags.languages@),
            strs(self.tags.tech@),
            self.links.github@,
            opt_str(self.links.homepage),
        )
    }
}

impl View for ContributionProject {
    type V = ProjectRow;

    open spec fn view(&self) -> ProjectRow {
        (
            self.title@,
            figure_view(self.figure),
            strs(self.contributions@),
            strs(self.tags.languages@),
            strs(self.tags.tech@),
            self.links.github@,
            opt_str(self.links.homepage),
        )
    }
}

/// A project's picture as the tables write it: an icon by identifier, or the
/// URL of an image.
enum FigureSource {
    Icon(&'static str),
    Picture(&'static str),
}

spec fn figure_source_view(f: Option<FigureSource>) -> Option<FigureView> {
    match f {
        Some(FigureSource::Icon(id)) => Some(FigureView::Icon(id@)),
        Some(FigureSource::Picture(u)) => Some(FigureView::Picture(u@)),
        None => None,
    }
}

/// A row of the project tables, before its icon is looked up.
struct ProjectSource {
    title: &'static str,
    figure: Option<FigureSource>,
    text: Vec<&'static str>,
    tags: ProjectTags,
    links: ProjectLinks,
}

spec fn source_view(p: ProjectSource) -> ProjectRow {
    (
        p.title@,
        figure_source_view(p.figure),
        strs(p.text@),
        strs(p.tags.languages@),
        strs(p.tags.tech@),
        p.links.github@,
        opt_str(p.links.homepage),
    )
}

spec fn sources_view(ps: Seq<ProjectSource>) -> Seq<ProjectRow> {
    ps.map_values(|p: ProjectSource| source_view(p))
}

/// The icons of each row of a project table, row by row.
pub open spec fn project_groups(rows: Seq<ProjectRow>) -> Seq<Seq<Seq<char>>> {
    rows.map_values(|p: ProjectRow| figure_ids(p.1))
}

fn resolve_figure(icons: &mut IconsUnverified, figure: Option<FigureSource>) -> (r: Result<
    Option<ProjectFigure>,
    IconError,
>)
    requires
        registry_wf(old(icons)@),
    ensures
        registry_wf(final(icons)@),
        final(icons)@.0 == old(icons)@.0,
        r is Ok <==> all_available(old(icons)@.0, figure_ids(figure_source_view(figure))),
        match r {
            Ok(f) => figure_view(f) == figure_source_view(figure) && final(icons)@.1 == old(
                icons,
            )@.1 + figure_ids(figure_source_view(figure)),
            Err(e) => first_missing(old(icons)@.0, figure_ids(figure_source_view(figure)), e),
        },
{
    match figure {
        None => {
            assert(icons@.1 + Seq::<Seq<char>>::empty() =~= icons@.1);
            Ok(None)
        },
        Some(FigureSource::Picture(url)) => {
            assert(icons@.1 + Seq::<Seq<char>>::empty() =~= icons@.1);
            Ok(Some(ProjectFigure::Picture(url)))
        },
        Some(FigureSource::Icon(id)) => {
            let ghost ids = seq![id@];
            match icons.reference(id) {
                Ok(icon) => {
                    assert(old(icons)@.1.push(id@) =~= old(icons)@.1 + ids);
                    Ok(Some(ProjectFigure::Icon(icon)))
                },
                Err(e) => {
                    assert(ids[0] == id@);
                    assert(all_available(old(icons)@.0, ids.subrange(0, 0)));
                    Err(e)
                },
            }
        },
    }
}

/// The site owner's projects.
pub open spec fn project_table() -> Seq<ProjectRow> {
    seq![
        (
            "git-repo-manager"@,
            Some(FigureView::Icon("Git"@)),
            seq![
                "A command-line tool to manage local git repositories"@,
            ],
            seq!["Rust"@],
            seq![
                "Libgit2"@,
                "Toml"@,
            ],
            "https://github.com/hakoerber/git-repo-manager"@,
            Some("https://hakoerber.github.io/git-repo-manager/"@),
        ),
        (
            "prometheus-restic-backblaze"@,
            Some(FigureView::Icon("Backblaze"@)),
            seq![
                "A prometheus exporter that reports restic backup ages for Backblaze"@,
            ],
            seq!["Python"@],
            seq![
                "Prometheus"@,
                "Restic"@,
            ],
            "https://github.com/hakoerber/prometheus-restic-backblaze"@,
            Some("https://github.com/hakoerber/prometheus-restic-backblaze"@),
        ),
        (
            "virt-bootstrap"@,
            None,
            seq![
                "A script that bootstraps a new libvirt VM using cobbler"@,
            ],
            seq!["Python"@],
            seq![
                "Libvirt"@,
                "Cobbler"@,
            ],
            "https://github.com/hakoerber/virt-bootstrap"@,
            None,
        ),
        (
            "aws-glacier-backup"@,
            Some(FigureView::Icon("AwsS3"@)),
            seq![
                "A bash script that uploads gzip’ed, gpg encrypted backups to AWS glacier"@,
            ],
            seq!["Bash"@],
            seq![
                "AWS S3"@,
                "GPG"@,
            ],
            "https://github.com/hakoerber/aws-glacier-backup"@,
            None,
        ),
        (
            "guitar-practice"@,
            Some(FigureView::Picture("/assets/images/guitar-closeup.jpg"@)),
            seq![
                "A simple python script that gives me a series of guitar chords to practice chord transitions, with customizable rate of change"@,
            ],
            seq!["Python"@],
            Seq::<Seq<char>>::empty(),
            "https://github.com/hakoerber/guitar-practice"@,
            None,
        ),
        (
            "checkconn"@,
            None,
            seq![
                "Utiliy that continuously monitors the internet connection and reports downtimes"@,
            ],
            seq!["Bash"@],
            Seq::<Seq<char>>::empty(),
            "https://github.com/hakoerber/checkconn"@,
            None,
        ),
        (
            "packager"@,
            None,
            seq![
                "A learning project that can be used to manage packing lists for trips, considering duration, weather and other factors."@,
                "I mainly wrote this to play around with Flask and Elm"@,
            ],
            seq![
                "Rust"@,
                "Python"@,
                "Elm"@,
                "Javascript"@,
                "Svelte"@,
            ],
            seq![
                "HTMX"@,
                "Flask"@,
                "SQlite"@,
            ],
            "https://github.com/hakoerber/packager"@,
            None,
        ),
        (
            "salt-nginx-letsencrypt"@,
            Some(FigureView::Icon("Letsencrypt"@)),
            seq![
                "A SaltStack nginx formula that also enables automated letsencrypt certificate management"@,
            ],
            seq!["Python"@],
            seq![
                "SaltStack"@,
                "LetsEncrypt"@,
                "Nginx"@,
            ],
            "https://github.com/hakoerber/salt-nginx-letsencrypt"@,
            None,
        ),
        (
            "ansible-roles"@,
            Some(FigureView::Icon("Ansible"@)),
            seq![
                "A collection of ansible roles, e.g. for libvirt, networking, OpenVPN"@,
            ],
            seq!["YAML"@],
            seq!["Ansible"@],
            "https://github.com/hakoerber/ansible-roles"@,
            None,
        ),
        (
            "salt-states"@,
            Some(FigureView::Icon("Saltstack"@)),
            seq![
                "A big collection of saltstack states that I used for my homelab."@,
                "It contains configuration for a bunch of different services, e.g. elasticsearch, dovecot, grafana, influxdb, jenkins, kibana, nginx, owncloud, postgresql, ssh and a lot of others."@,
            ],
            seq![
                "YAML"@,
                "Jinja2"@,
            ],
            seq!["SaltStack"@],
            "https://github.com/hakoerber/salt-states"@,
            None,
        ),
        (
            "wifiqr"@,
            Some(FigureView::Picture("/assets/images/qrcode-example.png"@)),
            seq![
                "A script that generates QR codes for easy WiFi access"@,
            ],
            seq!["Bash"@],
            Seq::<Seq<char>>::empty(),
            "https://github.com/hakoerber/wifiqr"@,
            None,
        ),
        (
            "syncrepo"@,
            None,
            seq![
                "A python script to create and maintain a local YUM/DNF package repository for CentOS."@,
                "Can be used to keep a mirror up to date with <code>cron(8)</code>."@,
            ],
            seq!["Python"@],
            seq!["DNF"@],
            "https://github.com/hakoerber/syncrepo"@,
            None,
        ),
    ]
}

/// The figure icons of the table, in table order.
pub open spec fn project_icon_ids() -> Seq<Seq<char>> {
    flat(project_groups(project_table()))
}

/// The site owner's projects, each figure icon referenced in the registry.
/// Succeeds exactly when every figure icon file is available; otherwise fails
/// on the first project, in table order, whose icon file is missing.
pub fn projects(icons: &mut IconsUnverified) -> (r: Result<Vec<Project>, IconError>)
    requires
        registry_wf(old(icons)@),
    ensures
        registry_wf(final(icons)@),
        final(icons)@.0 == old(icons)@.0,
        r is Ok <==> all_available(old(icons)@.0, project_icon_ids()),
        match r {
            Ok(v) => v@.map_values(|p: Project| p@) == project_table() && final(icons)@.1 == old(
                icons,
            )@.1 + project_icon_ids(),
            Err(e) => first_missing(old(icons)@.0, project_icon_ids(), e),
        },
{
    let rows: Vec<ProjectSource> = vec![
        ProjectSource {
            title: "git-repo-manager",
            figure: Some(FigureSource::Icon("Git")),
            text: vec!["A command-line tool to manage local git repositories"],
            tags: ProjectTags {
                languages: vec!["Rust"],
                tech: vec![
                    "Libgit2",
                    "Toml",
                ],
            },
            links: ProjectLinks {
                github: "https://github.com/hakoerber/git-repo-manager",
                homepage: Some("https://hakoerber.github.io/git-repo-manager/"),
            },
        },
        ProjectSource {
            title: "prometheus-restic-backblaze",
            figure: Some(FigureSource::Icon("Backblaze")),
            text: vec![
                "A prometheus exporter that reports restic backup ages for Backblaze",
            ],
            tags: ProjectTags {
                languages: vec!["Python"],
                tech: vec![
                    "Prometheus",
                    "Restic",
                ],
            },
            links: ProjectLinks {
                github: "https://github.com/hakoerber/prometheus-restic-backblaze",
                homepage: Some("https://github.com/hakoerber/prometheus-restic-backblaze"),
            },
        },
        ProjectSource {
            title: "virt-bootstrap",
            figure: None,
            text: vec!["A script that bootstraps a new libvirt VM using cobbler"],
            tags: ProjectTags {
                languages: vec!["Python"],
                tech: vec![
                    "Libvirt",
                    "Cobbler",
                ],
            },
            links: ProjectLinks {
                github: "https://github.com/hakoerber/virt-bootstrap",
                homepage: None,
            },
        },
        ProjectSource {
            title: "aws-glacier-backup",
            figure: Some(FigureSource::Icon("AwsS3")),
            text: vec![
                "A bash script that uploads gzip’ed, gpg encrypted backups to AWS glacier",
            ],
            tags: ProjectTags {
                languages: vec!["Bash"],
                tech: vec![
                    "AWS S3",
                    "GPG",
                ],
            },
            links: ProjectLinks {
                github: "https://github.com/hakoerber/aws-glacier-backup",
                homepage: None,
            },
        },
        ProjectSource {
            title: "guitar-practice",
            figure: Some(FigureSource::Picture("/assets/images/guitar-closeup.jpg")),
            text: vec![
                "A simple python script that gives me a series of guitar chords to practice chord transitions, with customizable rate of change",
            ],
            tags: ProjectTags {
                languages: vec!["Python"],
                tech: vec![],
            },
            links: ProjectLinks {
                github: "https://github.com/hakoerber/guitar-practice",
                homepage: None,
            },
        },
        ProjectSource {
            title: "checkconn",
            figure: None,
            text: vec![
                "Utiliy that continuously monitors the internet connection and reports downtimes",
            ],
            tags: ProjectTags {
                languages: vec!["Bash"],
                tech: vec![],
            },
            links: ProjectLinks {
                github: "https://github.com/hakoerber/checkconn",
                homepage: None,
            },
        },
        ProjectSource {
            title: "packager",
            figure: None,
            text: vec![
                "A learning project that can be used to manage packing lists for trips, considering duration, weather and other factors.",
                "I mainly wrote this to play around with Flask and Elm",
            ],
            tags: ProjectTags {
                languages: vec![
                    "Rust",
                    "Python",
                    "Elm",
                    "Javascript",
                    "Svelte",
                ],
                tech: vec![
                    "HTMX",
                    "Flask",
                    "SQlite",
                ],
            },
            links: ProjectLinks {
                github: "https://github.com/hakoerber/packager",
                homepage: None,
            },
        },
        ProjectSource {
            title: "salt-nginx-letsencrypt",
            figure: Some(FigureSource::Icon("Letsencrypt")),
            text: vec![
                "A SaltStack nginx formula that also enables automated letsencrypt certificate management",
            ],
            tags: ProjectTags {
                languages: vec!["Python"],
                tech: vec![
                    "SaltStack",
                    "LetsEncrypt",
                    "Nginx",
                ],
            },
            links: ProjectLinks {
                github: "https://github.com/hakoerber/salt-nginx-letsencrypt",
                homepage: None,
            },
        },
        ProjectSource {
            title: "ansible-roles",
            figure: Some(FigureSource::Icon("Ansible")),
            text: vec![
                "A collection of ansible roles, e.g. for libvirt, networking, OpenVPN",
            ],
            tags: ProjectTags {
                languages: vec!["YAML"],
                tech: vec!["Ansible"],
            },
            links: ProjectLinks {
                github: "https://github.com/hakoerber/ansible-roles",
                homepage: None,
            },
        },
        ProjectSource {
            title: "salt-states",
            figure: Some(FigureSource::Icon("Saltstack")),
            text: vec![
                "A big collection of saltstack states that I used for my homelab.",
                "It contains configuration for a bunch of different services, e.g. elasticsearch, dovecot, grafana, influxdb, jenkins, kibana, nginx, owncloud, postgresql, ssh and a lot of others.",
            ],
            tags: ProjectTags {
                languages: vec![
                    "YAML",
                    "Jinja2",
                ],
                tech: vec!["SaltStack"],
            },
            links: ProjectLinks {
                github: "https://github.com/hakoerber/salt-states",
                homepage: None,
            },
        },
        ProjectSource {
            title: "wifiqr",
            figure: Some(FigureSource::Picture("/assets/images/qrcode-example.png")),
            text: vec!["A script that generates QR codes for easy WiFi access"],
            tags: ProjectTags {
                languages: vec!["Bash"],
                tech: vec![],
            },
            links: ProjectLinks {
                github: "https://github.com/hakoerber/wifiqr",
                homepage: None,
            },
        },
        ProjectSource {
            title: "syncrepo",
            figure: None,
            text: vec![
                "A python script to create and maintain a local YUM/DNF package repository for CentOS.",
                "Can be used to keep a mirror up to date with <code>cron(8)</code>.",
            ],
            tags: ProjectTags {
                languages: vec!["Python"],
                tech: vec!["DNF"],
            },
            links: ProjectLinks {
                github: "https://github.com/hakoerber/syncrepo",
                homepage: None,
            },
        },
    ];
    let ghost table = project_table();
    let ghost groups = project_groups(table);
    let ghost orig = rows@;
    assert(sources_view(orig) =~~= table);
    let ghost start = icons@;
    let n = rows.len();
    let mut rows = rows;
    let mut out: Vec<Project> = Vec::new();
    let mut i: usize = 0;
    while i < n
        invariant
            n == orig.len(),
            table == project_table(),
            groups == project_groups(table),
            sources_view(orig) == table,
            0 <= i <= n,
            rows@ == orig.subrange(i as int, n as int),
            start == old(icons)@,
            registry_wf(icons@),
            icons@.0 == start.0,
            icons@.1 == start.1 + flat(groups.subrange(0, i as int)),
            all_available(start.0, flat(groups.subrange(0, i as int))),
            out@.map_values(|p: Project| p@) == table.subrange(0, i as int),
        decreases n - i,
    {
        assert(rows@[0] == orig[i as int]);
        let row = rows.remove(0);
        assert(sources_view(orig)[i as int] == source_view(row));
        assert(groups[i as int] == figure_ids(table[i as int].1));
        let figure = match resolve_figure(icons, row.figure) {
            Ok(f) => f,
            Err(e) => {
                proof {
                    lemma_lift_missing(start.0, groups, i as int, e);
                }
                return Err(e);
            },
        };
        proof {
            lemma_flat_step(groups, i as int);
            lemma_available_concat(start.0, flat(groups.subrange(0, i as int)), groups[i as int]);
            assert(start.1 + flat(groups.subrange(0, i as int)) + groups[i as int] =~= start.1
                + flat(groups.subrange(0, i + 1)));
        }
        let ghost before = out@;
        out.push(
            Project {
                title: row.title,
                figure,
                description: row.text,
                tags: row.tags,
                links: row.links,
            },
        );
        assert(out@.map_values(|p: Project| p@) =~= before.map_values(|p: Project| p@).push(
            table[i as int],
        ));
        assert(table.subrange(0, i + 1) =~= table.subrange(0, i as int).push(table[i as int]));
        i = i + 1;
    }
    assert(table.subrange(0, i as int) =~= table);
    assert(groups.subrange(0, i as int) =~= groups);
    Ok(out)
}

/// The projects that the site owner contributed to.
pub open spec fn contribution_table() -> Seq<ProjectRow> {
    seq![
        (
            "Prometheus Node Exporter"@,
            Some(FigureView::Icon("Prometheus"@)),
            seq![
                "Add label to NFS metrics containing the NFS protocol (<code>tcp/udp</code>)"@,
            ],
            seq!["Go"@],
            seq![
                "Prometheus"@,
                "NFS"@,
            ],
            "https://github.com/prometheus/node_exporter"@,
            None,
        ),
        (
            "Kubespray"@,
            Some(FigureView::Icon("Kubernetes"@)),
            seq![
                "Fix issues with continuous regeneration of etcd TLS cerificates"@,
                "Fix incorrect directory mode for etcd TLS certificates"@,
            ],
            seq!["YAML"@],
            seq![
                "Kubernetes"@,
                "Ansible"@,
            ],
            "https://github.com/kubernetes-sigs/kubespray/"@,
            None,
        ),
        (
            "SaltStack"@,
            Some(FigureView::Icon("Saltstack"@)),
            seq![
                "Expand the <code>firewalld</code> module for interfaces, sources, services and zones"@,
                "Fix the reactor engine not being loaded when not explicitly configured"@,
            ],
            seq!["Python"@],
            seq![
                "SaltStack"@,
                "Firewalld"@,
            ],
            "https://github.com/saltstack/salt"@,
            None,
        ),
        (
            "Vagrant"@,
            Some(FigureView::Icon("Vagrant"@)),
            seq![
                "Renew DHCP lease on hostname change for Debian guests"@,
                "Fix hostname entry in <code>/etc/hosts</code> for Debian guests"@,
            ],
            seq!["Ruby"@],
            seq!["Vagrant"@],
            "https://github.com/hashicorp/vagrant"@,
            None,
        ),
        (
            "Prometheus procfs"@,
            Some(FigureView::Icon("Prometheus"@)),
            seq![
                "Add exporting of a new field containing the NFS protocol (required for the node exporter change)"@,
                "Fix parsing of the <code>xprt</code> lines in <code>mountstats</code> to enable metric exports for UDP mounts"@,
            ],
            seq!["Go"@],
            seq![
                "Prometheus"@,
                "NFS"@,
            ],
            "https://github.com/prometheus/procfs"@,
            None,
        ),
        (
            "The Lost Son"@,
            Some(FigureView::Picture("/assets/images/lostson.jpg"@)),
            seq!["Our contribution to the Global Game Jam 2018!"@],
            seq!["Javascript"@],
            seq!["Phaser"@],
            "https://github.com/niklas-heer/the-lost-son"@,
            None,
        ),
    ]
}

/// The figure icons of the table, in table order.
pub open spec fn contribution_icon_ids() -> Seq<Seq<char>> {
    flat(project_groups(contribution_table()))
}

/// The projects that the site owner contributed to, each figure icon
/// referenced in the registry. Succeeds exactly when every figure icon file is
/// available; otherwise fails on the first project, in table order, whose icon
/// file is missing.
pub fn contribution_projects(icons: &mut IconsUnverified) -> (r: Result<Vec<ContributionProject>, IconError>)
    requires
        registry_wf(old(icons)@),
    ensures
        registry_wf(final(icons)@),
        final(icons)@.0 == old(icons)@.0,
        r is Ok <==> all_available(old(icons)@.0, contribution_icon_ids()),
        match r {
            Ok(v) => v@.map_values(|p: ContributionProject| p@) == contribution_table() && final(icons)@.1 == old(
                icons,
            )@.1 + contribution_icon_ids(),
            Err(e) => first_missing(old(icons)@.0, contribution_icon_ids(), e),
        },
{
    let rows: Vec<ProjectSource> = vec![
        ProjectSource {
            title: "Prometheus Node Exporter",
            figure: Some(FigureSource::Icon("Prometheus")),
            text: vec![
                "Add label to NFS metrics containing the NFS protocol (<code>tcp/udp</code>)",
            ],
            tags: ProjectTags {
                languages: vec!["Go"],
                tech: vec![
                    "Prometheus",
                    "NFS",
                ],
            },
            links: ProjectLinks {
                github: "https://github.com/prometheus/node_exporter",
                homepage: None,
            },
        },
        ProjectSource {
            title: "Kubespray",
            figure: Some(FigureSource::Icon("Kubernetes")),
            text: vec![
                "Fix issues with continuous regeneration of etcd TLS cerificates",
                "Fix incorrect directory mode for etcd TLS certificates",
            ],
            tags: ProjectTags {
                languages: vec!["YAML"],
                tech: vec![
                    "Kubernetes",
                    "Ansible",
                ],
            },
            links: ProjectLinks {
                github: "https://github.com/kubernetes-sigs/kubespray/",
                homepage: None,
            },
        },
        ProjectSource {
            title: "SaltStack",
            figure: Some(FigureSource::Icon("Saltstack")),
            text: vec![
                "Expand the <code>firewalld</code> module for interfaces, sources, services and zones",
                "Fix the reactor engine not being loaded when not explicitly configured",
            ],
            tags: ProjectTags {
                languages: vec!["Python"],
                tech: vec![
                    "SaltStack",
                    "Firewalld",
                ],
            },
            links: ProjectLinks {
                github: "https://github.com/saltstack/salt",
                homepage: None,
            },
        },
        ProjectSource {
            title: "Vagrant",
            figure: Some(FigureSource::Icon("Vagrant")),
            text: vec![
                "Renew DHCP lease on hostname change for Debian guests",
                "Fix hostname entry in <code>/etc/hosts</code> for Debian guests",
            ],
            tags: ProjectTags {
                languages: vec!["Ruby"],
                tech: vec!["Vagrant"],
            },
            links: ProjectLinks {
                github: "https://github.com/hashicorp/vagrant",
                homepage: None,
            },
        },
        ProjectSource {
            title: "Prometheus procfs",
            figure: Some(FigureSource::Icon("Prometheus")),
            text: vec![
                "Add exporting of a new field containing the NFS protocol (required for the node exporter change)",
                "Fix parsing of the <code>xprt</code> lines in <code>mountstats</code> to enable metric exports for UDP mounts",
            ],
            tags: ProjectTags {
                languages: vec!["Go"],
                tech: vec![
                    "Prometheus",
                    "NFS",
                ],
            },
            links: ProjectLinks {
                github: "https://github.com/prometheus/procfs",
                homepage: None,
            },
        },
        ProjectSource {
            title: "The Lost Son",
            figure: Some(FigureSource::Picture("/assets/images/lostson.jpg")),
            text: vec!["Our contribution to the Global Game Jam 2018!"],
            tags: ProjectTags {
                languages: vec!["Javascript"],
                tech: vec!["Phaser"],
            },
            links: ProjectLinks {
                github: "https://github.com/niklas-heer/the-lost-son",
                homepage: None,
            },
        },
    ];
    let ghost table = contribution_table();
    let ghost groups = project_groups(table);
    let ghost orig = rows@;
    assert(sources_view(orig) =~~= table);
    let ghost start = icons@;
    let n = rows.len();
    let mut rows = rows;
    let mut out: Vec<ContributionProject> = Vec::new();
    let mut i: usize = 0;
    while i < n
        invariant
            n == orig.len(),
            table == contribution_table(),
            groups == project_groups(table),
            sources_view(orig) == table,
            0 <= i <= n,
            rows@ == orig.subrange(i as int, n as int),
            start == old(icons)@,
            registry_wf(icons@),
            icons@.0 == start.0,
            icons@.1 == start.1 + flat(groups.subrange(0, i as int)),
            all_available(start.0, flat(groups.subrange(0, i as int))),
            out@.map_values(|p: ContributionProject| p@) == table.subrange(0, i as int),
        decreases n - i,
    {
        assert(rows@[0] == orig[i as int]);
        let row = rows.remove(0);
        assert(sources_view(orig)[i as int] == source_view(row));
        assert(groups[i as int] == figure_ids(table[i as int].1));
        let figure = match resolve_figure(icons, row.figure) {
            Ok(f) => f,
            Err(e) => {
                proof {
                    lemma_lift_missing(start.0, groups, i as int, e);
                }
                return Err(e);
            },
        };
        proof {
            lemma_flat_step(groups, i as int);
            lemma_available_concat(start.0, flat(groups.subrange(0, i as int)), groups[i as int]);
            assert(start.1 + flat(groups.subrange(0, i as int)) + groups[i as int] =~= start.1
                + flat(groups.subrange(0, i + 1)));
        }
        let ghost before = out@;
        out.push(
            ContributionProject {
                title: row.title,
                figure,
                contributions: row.text,
                tags: row.tags,
                links: row.links,
            },
        );
        assert(out@.map_values(|p: ContributionProject| p@) =~= before.map_values(|p: ContributionProject| p@).push(
            table[i as int],
        ));
        assert(table.subrange(0, i + 1) =~= table.subrange(0, i as int).push(table[i as int]));
        i = i + 1;
    }
    assert(table.subrange(0, i as int) =~= table);
    assert(groups.subrange(0, i as int) =~= groups);
    Ok(out)
}

} // verus!
