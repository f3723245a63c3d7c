use homepage::data::{certifications, contribution_projects, projects, socials, tech_categories, ProjectFigure, TechLevel};
use homepage::icon::{IconError, IconsUnverified, UnusedIconFiles};
use homepage::pages::{AboutPage, LandingPage, ProjectsPage, Render, SkillsPage};

const ALL_ICONS: &[&str] = &[
    "Github", "Linkedin", "Keybase", "Email", "Rss", "Kubernetes", "Docker", "CriO", "Containerd",
    "Oci", "Rancher", "Postgresql", "Elasticsearch", "Mysql", "Redis", "Influx", "Sqlite",
    "Terraform", "Ansible", "Pulumi", "Packer", "Puppet", "Saltstack", "Html5", "Css",
    "Javascript", "Flask", "Svelte", "Reactjs", "Python", "Rust", "Go", "Typescript", "Bash", "C",
    "Prometheus", "Grafana", "Kibana", "Opsgenie", "Opentelemetry", "Jaeger", "Git", "Neovim",
    "Gitlab", "Swagger", "Jira", "Drone", "Jenkins", "Aws", "Digitalocean", "Hetzner", "Nginx",
    "Apache", "Haproxy", "Openresty", "Centos", "Debian", "ArchLinux", "Ubuntu", "Fedora",
    "Freebsd", "Keycloak", "OpenidConnect", "Gnupg", "Letsencrypt", "Wireshark", "Openvpn",
    "Libvirt", "Vagrant", "Qemu", "Ceph", "Openzfs", "Backblaze", "AwsS3", "Info",
];

fn full_registry() -> IconsUnverified {
    IconsUnverified::new(ALL_ICONS.iter().map(|i| format!("{i}.svg")).collect())
}

#[test]
fn socials_reference_their_icons() {
    let mut icons = full_registry();
    let s = socials(&mut icons).unwrap();
    let ids: Vec<&str> = s.iter().map(|x| x.icon.id()).collect();
    assert_eq!(ids, vec!["Github", "Linkedin", "Keybase", "Email", "Rss"]);
    assert_eq!(s[3].description, Some("Send me an e-mail"));
    assert_eq!(s[0].link, "https://github.com/hakoerber");
}

#[test]
fn socials_fail_on_missing_icon() {
    let mut icons = IconsUnverified::new(vec!["Github.svg".to_string()]);
    match socials(&mut icons) {
        Err(IconError::Missing(id)) => assert_eq!(id, "Linkedin"),
        other => panic!("unexpected {:?}", other.map(|v| v.len())),
    }
}

#[test]
fn tech_categories_table() {
    let mut icons = full_registry();
    let cats = tech_categories(&mut icons).unwrap();
    assert_eq!(cats.len(), 14);
    assert_eq!(cats.iter().map(|c| c.technologies.len()).sum::<usize>(), 69);
    assert_eq!(cats[0].name, "Containerization");
    assert_eq!(cats[0].technologies[0].name, "Kubernetes");
    assert_eq!(cats[0].technologies[0].level, TechLevel::Pro);
    assert_eq!(cats[13].technologies[1].icon.id(), "Openzfs");
    assert_eq!(TechLevel::Pro.name(), "pro");
    assert_eq!(TechLevel::Normal.name(), "normal");
}

#[test]
fn project_tables() {
    let mut icons = full_registry();
    let p = projects(&mut icons).unwrap();
    assert_eq!(p.len(), 12);
    assert_eq!(p[0].title, "git-repo-manager");
    assert!(matches!(&p[0].figure, Some(ProjectFigure::Icon(i)) if i.id() == "Git"));
    assert!(matches!(&p[4].figure, Some(ProjectFigure::Picture("/assets/images/guitar-closeup.jpg"))));
    assert!(p[2].figure.is_none());
    let c = contribution_projects(&mut icons).unwrap();
    assert_eq!(c.len(), 6);
    assert_eq!(c[1].contributions.len(), 2);
    assert_eq!(certifications().len(), 1);
}

#[test]
fn strict_check_after_tables() {
    let mut icons = IconsUnverified::new(vec!["Github.svg".to_string(), "Rss.svg".to_string(), "Linkedin.svg".to_string(), "Keybase.svg".to_string(), "Email.svg".to_string(), "Stray.svg".to_string()]);
    socials(&mut icons).unwrap();
    match icons.verify_all(UnusedIconFiles::Deny) {
        Err(IconError::Superfluous(f)) => assert_eq!(f, "Stray.svg"),
        other => panic!("unexpected {:?}", other.is_ok()),
    }
}

#[test]
fn rendered_page_locations() {
    assert_eq!(LandingPage::page().path(), "index.html");
    assert_eq!(SkillsPage::page().path(), "skills/index.html");
    assert_eq!(ProjectsPage::page().path(), "projects/index.html");
    assert_eq!(AboutPage::page().path(), "about/index.html");
    assert_eq!(SkillsPage::directory(), "skills");
}

#[test]
fn certification_row() {
    let c = certifications();
    assert_eq!(c[0].title, "AWS Certified Solutions Architect – Associate");
    assert_eq!(
        c[0].link,
        "https://www.credly.com/badges/870a6345-ed4e-416e-9c46-c9af9c6d2c77/public_url"
    );
    assert_eq!(c[0].image, "/assets/badges/aws-certified-solutions-architect-associate.png");
}

#[test]
fn social_rows() {
    let mut icons = full_registry();
    let s = socials(&mut icons).unwrap();
    let names: Vec<&str> = s.iter().map(|x| x.name).collect();
    assert_eq!(names, vec!["Github", "Linkedin", "Keybase", "E-Mail", "RSS"]);
    let paths: Vec<String> = s.iter().map(|x| x.icon.output_path()).collect();
    assert_eq!(
        paths,
        vec!["/icons/Github.svg", "/icons/Linkedin.svg", "/icons/Keybase.svg", "/icons/Email.svg", "/icons/Rss.svg"]
    );
    let described: Vec<bool> = s.iter().map(|x| x.description.is_some()).collect();
    assert_eq!(described, vec![false, false, false, true, true]);
}

#[test]
fn tech_category_rows() {
    let mut icons = full_registry();
    let cats = tech_categories(&mut icons).unwrap();
    let names: Vec<&str> = cats.iter().map(|c| c.name).collect();
    assert_eq!(
        names,
        vec![
            "Containerization", "Databases", "Configuration Management", "Web Development",
            "Programming", "Observability", "Development", "Automation", "Cloud Providers",
            "Web Servers", "Operating Systems", "Security", "Virtualization", "Storage",
        ]
    );
    let sizes: Vec<usize> = cats.iter().map(|c| c.technologies.len()).collect();
    assert_eq!(sizes, vec![6, 6, 6, 6, 6, 6, 6, 3, 3, 4, 6, 6, 3, 2]);
}

#[test]
fn tech_categories_fail_on_first_missing_icon() {
    let files: Vec<String> = ALL_ICONS
        .iter()
        .filter(|i| **i != "Redis" && **i != "Jira")
        .map(|i| format!("{i}.svg"))
        .collect();
    let mut icons = IconsUnverified::new(files);
    match tech_categories(&mut icons) {
        Err(IconError::Missing(id)) => assert_eq!(id, "Redis"),
        other => panic!("unexpected {:?}", other.map(|v| v.len())),
    }
}

#[test]
fn project_rows() {
    let mut icons = full_registry();
    let p = projects(&mut icons).unwrap();
    let titles: Vec<&str> = p.iter().map(|x| x.title).collect();
    assert_eq!(
        titles,
        vec![
            "git-repo-manager", "prometheus-restic-backblaze", "virt-bootstrap",
            "aws-glacier-backup", "guitar-practice", "checkconn", "packager",
            "salt-nginx-letsencrypt", "ansible-roles", "salt-states", "wifiqr", "syncrepo",
        ]
    );
    let icon_ids: Vec<&str> = p
        .iter()
        .filter_map(|x| match &x.figure {
            Some(ProjectFigure::Icon(i)) => Some(i.id()),
            _ => None,
        })
        .collect();
    assert_eq!(icon_ids, vec!["Git", "Backblaze", "AwsS3", "Letsencrypt", "Ansible", "Saltstack"]);
    let homepages: Vec<bool> = p.iter().map(|x| x.links.homepage.is_some()).collect();
    assert_eq!(homepages.iter().filter(|h| **h).count(), 2);
    assert!(homepages[0] && homepages[1]);
}

#[test]
fn contribution_rows() {
    let mut icons = full_registry();
    let c = contribution_projects(&mut icons).unwrap();
    let titles: Vec<&str> = c.iter().map(|x| x.title).collect();
    assert_eq!(
        titles,
        vec!["Prometheus Node Exporter", "Kubespray", "SaltStack", "Vagrant", "Prometheus procfs", "The Lost Son"]
    );
    assert!(matches!(c[5].figure, Some(ProjectFigure::Picture("/assets/images/lostson.jpg"))));
    assert!(c.iter().all(|x| x.links.homepage.is_none() && !x.contributions.is_empty()));
}

#[test]
fn projects_fail_without_their_icons() {
    let mut icons = IconsUnverified::new(vec!["Git.svg".to_string(), "Backblaze.svg".to_string()]);
    match projects(&mut icons) {
        Err(IconError::Missing(id)) => assert_eq!(id, "AwsS3"),
        other => panic!("unexpected {:?}", other.map(|v| v.len())),
    }
}
