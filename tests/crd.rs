use swimmer::crd::{first_served_version, list_crd_groups, CrdRecord, CrdVersion};

fn v(name: &str, served: bool) -> CrdVersion {
    CrdVersion { name: name.to_string(), served }
}

fn crd(group: &str, kind: &str, plural: &str, versions: Vec<CrdVersion>) -> CrdRecord {
    CrdRecord {
        group: group.to_string(),
        kind: kind.to_string(),
        plural: plural.to_string(),
        scope: "Namespaced".to_string(),
        versions,
    }
}

#[test]
fn first_served_version_or_empty() {
    assert_eq!(first_served_version(&vec![v("v1alpha1", false), v("v1beta1", true), v("v1", true)]), "v1beta1");
    assert_eq!(first_served_version(&vec![v("v1", false)]), "");
    assert_eq!(first_served_version(&vec![]), "");
}

#[test]
fn groups_and_kinds_come_sorted() {
    let crds = vec![
        crd("zeta.io", "Widget", "widgets", vec![v("v1", true)]),
        crd("apps.example.com", "Gadget", "gadgets", vec![v("v2", false), v("v1", true)]),
        crd("zeta.io", "Alpha", "alphas", vec![v("v1", false)]),
        crd("apps.example.com", "Bolt", "bolts", vec![v("v1", true)]),
        crd("b.io", "Thing", "things", vec![v("v3", true)]),
    ];
    let groups = list_crd_groups(&crds);
    let names: Vec<&str> = groups.iter().map(|g| g.group.as_str()).collect();
    assert_eq!(names, vec!["apps.example.com", "b.io", "zeta.io"]);
    let kinds: Vec<Vec<&str>> =
        groups.iter().map(|g| g.resources.iter().map(|r| r.kind.as_str()).collect()).collect();
    assert_eq!(kinds, vec![vec!["Bolt", "Gadget"], vec!["Thing"], vec!["Alpha", "Widget"]]);
    assert_eq!(groups[0].resources[1].version, "v1");
    assert_eq!(groups[0].resources[1].plural, "gadgets");
    assert_eq!(groups[2].resources[0].version, "");
    assert_eq!(groups[1].resources[0].scope, "Namespaced");
}

#[test]
fn no_definitions_no_groups() {
    assert!(list_crd_groups(&vec![]).is_empty());
}
