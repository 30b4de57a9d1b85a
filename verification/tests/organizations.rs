use hook0_api::ids::Uuid;
use hook0_api::organizations::list;
use hook0_api::organizations::Hook0Problem;
use hook0_api::organizations::MetadataLookup;
use hook0_api::organizations::Organization;

#[test]
fn list_merges_roles_with_names_in_input_order() {
    let id1 = Uuid { value: 0x11 };
    let id2 = Uuid { value: 0x22 };
    let roles = vec![
        (id1, "admin".to_string()),
        (id2, "member".to_string()),
    ];
    let lookups = vec![
        MetadataLookup::Found("Acme".to_string()),
        MetadataLookup::Missing,
    ];
    let out = list(&roles, &lookups).unwrap();
    assert_eq!(
        out,
        vec![
            Organization {
                organization_id: id1,
                role: "admin".to_string(),
                name: "Acme".to_string(),
            },
            Organization {
                organization_id: id2,
                role: "member".to_string(),
                name: "00000000-0000-0000-0000-000000000022".to_string(),
            },
        ]
    );
}

#[test]
fn list_missing_row_is_not_an_error() {
    let id = Uuid { value: 1 };
    let roles = vec![(id, "viewer".to_string())];
    let lookups = vec![MetadataLookup::Missing];
    let out = list(&roles, &lookups).unwrap();
    assert_eq!(out.len(), 1);
    assert_eq!(out[0].name, id.to_hyphenated_string());
    assert_eq!(out[0].role, "viewer");
}

#[test]
fn list_single_failure_fails_whole_request() {
    let roles = vec![
        (Uuid { value: 1 }, "admin".to_string()),
        (Uuid { value: 2 }, "member".to_string()),
        (Uuid { value: 3 }, "member".to_string()),
    ];
    let lookups = vec![
        MetadataLookup::Found("One".to_string()),
        MetadataLookup::Failed,
        MetadataLookup::Found("Three".to_string()),
    ];
    assert_eq!(
        list(&roles, &lookups),
        Err(Hook0Problem::InternalServerError)
    );
}

#[test]
fn list_of_nothing_is_empty() {
    let roles: Vec<(Uuid, String)> = vec![];
    let lookups: Vec<MetadataLookup> = vec![];
    assert_eq!(list(&roles, &lookups).unwrap(), vec![]);
}
