use roseline_launcher::db::{plan_put_hook, plan_put_vn, search_pattern, HookPlan, HookWrite, VnPlan};
use roseline_launcher::models::{Hook, HookView, Vn};

fn vn() -> Vn {
    Vn { id: 17, title: "Title".to_string() }
}

#[test]
fn put_hook_updates_the_stored_hook() {
    let stored = Hook { id: 5, vn_id: 17, version: "Steam".to_string(), code: "/HOLD".to_string() };
    let plan = plan_put_hook(&vn(), Some(stored), "steam".to_string(), "/HNEW".to_string());
    assert_eq!(
        plan,
        HookPlan {
            write: HookWrite::Update { hook_id: 5 },
            view: HookView { vn_id: 17, version: "Steam".to_string(), code: "/HNEW".to_string() }
        }
    );
}

#[test]
fn put_hook_keeps_the_owner_of_the_stored_hook() {
    let stored = Hook { id: 8, vn_id: 99, version: "v1".to_string(), code: "a".to_string() };
    let plan = plan_put_hook(&vn(), Some(stored), "v1".to_string(), "b".to_string());
    assert_eq!(plan.write, HookWrite::Update { hook_id: 8 });
    assert_eq!(plan.view.vn_id, 99);
}

#[test]
fn put_hook_inserts_where_none_is_stored() {
    let plan = plan_put_hook(&vn(), None, "1.0".to_string(), "/HCODE".to_string());
    assert_eq!(
        plan,
        HookPlan {
            write: HookWrite::Insert,
            view: HookView { vn_id: 17, version: "1.0".to_string(), code: "/HCODE".to_string() }
        }
    );
}

#[test]
fn put_vn_keeps_the_stored_row() {
    let stored = Vn { id: 3, title: "Stored".to_string() };
    assert_eq!(
        plan_put_vn(Some(stored.clone()), 3, "Offered".to_string()),
        VnPlan::Keep { vn: stored }
    );
}

#[test]
fn put_vn_inserts_where_none_is_stored() {
    assert_eq!(
        plan_put_vn(None, -4, "Offered".to_string()),
        VnPlan::Insert { vn: Vn { id: -4, title: "Offered".to_string() } }
    );
}

#[test]
fn search_pattern_wraps_the_title() {
    assert_eq!(search_pattern("rose"), "%rose%");
    assert_eq!(search_pattern(""), "%%");
    assert_eq!(search_pattern("100%"), "%100%%");
}
