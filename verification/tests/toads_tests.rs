use wednesday::toads::{get_toad, toad_id, TOAD_COUNT};

#[test]
fn toad_link_points_at_a_listed_video() {
    for _ in 0..20 {
        let url = get_toad();
        let id = url.strip_prefix("https://youtu.be/").expect("prefix");
        let mut listed = false;
        for i in 0..TOAD_COUNT {
            if toad_id(i) == id {
                listed = true;
            }
        }
        assert!(listed);
    }
}

#[test]
fn toad_list_is_distinct() {
    for i in 0..TOAD_COUNT {
        for j in (i + 1)..TOAD_COUNT {
            assert_ne!(toad_id(i), toad_id(j));
        }
    }
}
