use tdrace_session::garage::{
    carousel_step, gallery_grid, gallery_tabs, garage_commit, showroom_keys, step_round,
    GalleryInput, GarageCommit, ShowroomSelection,
};
use tdrace_session::garage::garage_entry;
use tdrace_session::modules::ModuleId;

fn sel(module: ModuleId, tier: u32, car_idx: usize) -> ShowroomSelection {
    ShowroomSelection { module, tier, car_idx }
}

#[test]
fn stepping_round_a_list() {
    assert_eq!(step_round(0, 5, false), 4);
    assert_eq!(step_round(4, 5, true), 0);
    assert_eq!(step_round(7, 5, true), 3);
    assert_eq!(step_round(7, 5, false), 1);
    for i in 0..5 {
        assert_eq!(step_round(step_round(i, 5, true), 5, false), i);
    }
}

#[test]
fn showroom_module_and_tier_keys() {
    assert_eq!(showroom_keys(sel(ModuleId::Gt, 2, 3), Some(3), false, false), sel(ModuleId::Kart, 2, 0));
    assert_eq!(showroom_keys(sel(ModuleId::Gt, 2, 3), Some(1), false, false), sel(ModuleId::Gt, 2, 3));
    assert_eq!(showroom_keys(sel(ModuleId::Gt, 2, 3), Some(9), true, false), sel(ModuleId::Gt, 1, 0));
    assert_eq!(showroom_keys(sel(ModuleId::Gt, 1, 3), None, true, true), sel(ModuleId::Gt, 1, 3));
    assert_eq!(showroom_keys(sel(ModuleId::Rally, 4, 2), None, false, true), sel(ModuleId::Rally, 5, 0));
    assert_eq!(showroom_keys(sel(ModuleId::Rally, 5, 2), Some(5), false, true), sel(ModuleId::ExtremeOffroad, 5, 0));
}

#[test]
fn carousel_wraps_and_clicks() {
    assert_eq!(carousel_step(0, 3, true, false, None), 2);
    assert_eq!(carousel_step(2, 3, false, true, None), 0);
    assert_eq!(carousel_step(1, 3, true, true, None), 0);
    assert_eq!(carousel_step(1, 3, true, false, Some(2)), 2);
    assert_eq!(carousel_step(1, 3, false, false, Some(5)), 1);
    assert_eq!(carousel_step(4, 0, true, false, None), 4);
}

#[test]
fn gallery_tabs_switch_and_wrap() {
    assert_eq!(gallery_tabs(9, 5, None, false, false, false, false, None), (4, false));
    assert_eq!(gallery_tabs(0, 5, None, true, true, false, false, None), (4, true));
    assert_eq!(gallery_tabs(4, 5, None, true, false, false, false, None), (0, true));
    assert_eq!(gallery_tabs(2, 5, Some(1), false, false, false, true, None), (2, true));
    assert_eq!(gallery_tabs(2, 5, None, false, false, false, false, Some(2)), (2, false));
    assert_eq!(gallery_tabs(2, 5, None, false, false, false, false, Some(3)), (3, true));
}

fn grid() -> GalleryInput {
    GalleryInput { click: None, left: false, right: false, up: false, down: false, confirm: false }
}

#[test]
fn gallery_grid_moves_by_rows() {
    let mut i = grid();
    i.down = true;
    assert_eq!(gallery_grid(1, 10, false, i), (5, None));
    assert_eq!(gallery_grid(7, 10, false, i), (7, None));
    let mut i = grid();
    i.up = true;
    i.confirm = true;
    assert_eq!(gallery_grid(6, 10, false, i), (2, Some(2)));
    let mut i = grid();
    i.left = true;
    assert_eq!(gallery_grid(6, 10, true, i), (9, None));
    let mut i = grid();
    i.click = Some(3);
    assert_eq!(gallery_grid(3, 10, false, i), (3, Some(3)));
    assert_eq!(gallery_grid(1, 10, false, i), (3, None));
    assert_eq!(gallery_grid(1, 10, true, i), (0, None));
    let mut i = grid();
    i.confirm = true;
    assert_eq!(gallery_grid(0, 0, false, i), (0, None));
}

#[test]
fn confirming_or_buying_a_car() {
    assert_eq!(garage_commit(false, false, true, true, true, true, 1, 1), GarageCommit::Nothing);
    assert_eq!(garage_commit(true, false, true, false, false, false, 1, 5), GarageCommit::Select);
    assert_eq!(garage_commit(false, true, false, true, false, true, 1, 1), GarageCommit::Nothing);
    assert_eq!(garage_commit(false, true, false, false, false, true, 1, 1), GarageCommit::Purchase);
    assert_eq!(garage_commit(true, false, false, false, false, false, 1, 3), GarageCommit::LockedTier);
    assert_eq!(garage_commit(true, false, false, false, false, false, 3, 3), GarageCommit::CannotAfford);
    assert_eq!(garage_commit(true, false, false, false, true, false, 1, 3), GarageCommit::Select);
}

#[test]
fn garage_opened_from_the_grid() {
    let models: Vec<String> = vec!["gt4_a".to_string(), "gt3_b".to_string()];
    assert_eq!(garage_entry(&models, &Some("gt3_b".to_string())), 1);
    assert_eq!(garage_entry(&models, &Some("kart".to_string())), 0);
    assert_eq!(garage_entry(&models, &None), 0);
}
