use diving_decompression::{
    DivePlan, Group, RowNdl, RowRgl, RowRnt, Rnt, TableNdl, TableRgl, TableRnt,
};

fn group(letter: &str, min_time: u16, max_time: u16) -> Group {
    Group { group_letter: letter.to_string(), min_time, max_time }
}

fn nodeco() -> TableNdl {
    TableNdl {
        table_code: String::from("nd"),
        table_name: String::from("no-decompression"),
        table_data: vec![
            RowNdl {
                min_fsw: 31,
                max_fsw: 35,
                unlimited: false,
                no_stop_limit: 232,
                values: vec![group("A", 0, 14), group("B", 15, 23), group("C", 24, 32), group("D", 33, 42)],
            },
            RowNdl {
                min_fsw: 36,
                max_fsw: 40,
                unlimited: false,
                no_stop_limit: 163,
                values: vec![group("A", 0, 12), group("B", 13, 20)],
            },
        ],
    }
}

fn rgl_row(group_letter: &str, min_time: u16, max_time: u16, repet_letter: &str) -> RowRgl {
    RowRgl {
        group_letter: group_letter.to_string(),
        min_time,
        max_time,
        repet_letter: repet_letter.to_string(),
    }
}

fn repetgroup() -> TableRgl {
    TableRgl {
        table_code: String::from("rg"),
        table_name: String::from("repetitive groups"),
        table_data: vec![
            rgl_row("A", 10, 720, "A"),
            rgl_row("B", 10, 76, "B"),
            rgl_row("B", 77, 782, "A"),
            rgl_row("D", 10, 52, "D"),
            rgl_row("D", 53, 101, "C"),
            rgl_row("D", 102, 183, "B"),
            rgl_row("D", 184, 880, "A"),
        ],
    }
}

fn residual() -> TableRnt {
    let entries = |times: &[(u16, u16, u16)]| -> Vec<Rnt> {
        times.iter().map(|&(min_depth, max_depth, rnt)| Rnt { min_depth, max_depth, rnt }).collect()
    };
    TableRnt {
        table_code: String::from("rn"),
        table_name: String::from("residual nitrogen"),
        table_note_9981: String::from("read the note"),
        table_data: vec![
            RowRnt { repet_letter: String::from("A"), rnt: entries(&[(0, 10, 57), (36, 40, 12)]) },
            RowRnt { repet_letter: String::from("B"), rnt: entries(&[(0, 10, 101), (36, 40, 20)]) },
            RowRnt { repet_letter: String::from("C"), rnt: entries(&[(36, 40, 27), (41, 45, 24)]) },
            RowRnt { repet_letter: String::from("D"), rnt: entries(&[(36, 40, 36)]) },
        ],
    }
}

#[test]
fn repetitive_letter_follows_the_surface_interval() {
    let (n, r) = (nodeco(), repetgroup());
    assert_eq!(DivePlan::new(35, 42, 30, 40).repet_letter(&n, &r), "D");
    assert_eq!(DivePlan::new(35, 42, 60, 40).repet_letter(&n, &r), "C");
    assert_eq!(DivePlan::new(35, 42, 102, 40).repet_letter(&n, &r), "B");
    assert_eq!(DivePlan::new(35, 42, 880, 40).repet_letter(&n, &r), "A");
    assert_eq!(DivePlan::new(38, 15, 80, 40).repet_letter(&n, &r), "A");
}

#[test]
fn repetitive_letter_empty_outside_interval_brackets() {
    let (n, r) = (nodeco(), repetgroup());
    assert_eq!(DivePlan::new(35, 42, 5, 40).repet_letter(&n, &r), "");
    assert_eq!(DivePlan::new(35, 42, 881, 40).repet_letter(&n, &r), "");
    // group C has no row in the repetitive-group table
    assert_eq!(DivePlan::new(35, 30, 60, 40).repet_letter(&n, &r), "");
}

#[test]
fn residual_nitrogen_time_follows_the_chain() {
    let (n, r, t) = (nodeco(), repetgroup(), residual());
    assert_eq!(DivePlan::new(35, 42, 30, 40).residual_nitrogen_time(&n, &r, &t), 36);
    assert_eq!(DivePlan::new(35, 42, 60, 40).residual_nitrogen_time(&n, &r, &t), 27);
    assert_eq!(DivePlan::new(35, 42, 60, 45).residual_nitrogen_time(&n, &r, &t), 24);
    assert_eq!(DivePlan::new(35, 42, 102, 10).residual_nitrogen_time(&n, &r, &t), 101);
    assert_eq!(DivePlan::new(35, 42, 500, 36).residual_nitrogen_time(&n, &r, &t), 12);
}

#[test]
fn residual_nitrogen_time_zero_without_depth_entry() {
    let (n, r, t) = (nodeco(), repetgroup(), residual());
    assert_eq!(DivePlan::new(35, 42, 30, 10).residual_nitrogen_time(&n, &r, &t), 0);
}

#[test]
fn chain_break_gives_empty_letter_and_zero_time() {
    let (n, r, t) = (nodeco(), repetgroup(), residual());
    // no group letter: 43 min at 35 fsw lies beyond the row's entries
    let p = DivePlan::new(35, 43, 30, 40);
    assert_eq!(p.repet_letter(&n, &r), "");
    assert_eq!(p.residual_nitrogen_time(&n, &r, &t), 0);
    // no repetitive letter
    let q = DivePlan::new(35, 42, 5, 40);
    assert_eq!(q.residual_nitrogen_time(&n, &r, &t), 0);
}

#[test]
fn overrides_play_no_part_in_the_chain() {
    let n = TableNdl { table_code: String::new(), table_name: String::new(), table_data: vec![] };
    let r = TableRgl {
        table_code: String::new(),
        table_name: String::new(),
        table_data: vec![rgl_row("F", 0, 1000, "E")],
    };
    let p = DivePlan::new(10, 500, 30, 40);
    assert_eq!(p.group_letter(&n), "F");
    assert_eq!(p.repet_letter(&n, &r), "");
    assert_eq!(p.residual_nitrogen_time(&n, &r, &residual()), 0);
}

#[test]
fn last_matching_repetitive_row_wins() {
    let n = nodeco();
    let r = TableRgl {
        table_code: String::new(),
        table_name: String::new(),
        table_data: vec![rgl_row("D", 0, 100, "C"), rgl_row("D", 50, 200, "B")],
    };
    assert_eq!(DivePlan::new(35, 40, 60, 40).repet_letter(&n, &r), "B");
    assert_eq!(DivePlan::new(35, 40, 40, 40).repet_letter(&n, &r), "C");
}

#[test]
fn last_matching_residual_entry_wins() {
    let (n, r) = (nodeco(), repetgroup());
    let t = TableRnt {
        table_code: String::new(),
        table_name: String::new(),
        table_note_9981: String::new(),
        table_data: vec![
            RowRnt { repet_letter: String::from("D"), rnt: vec![Rnt { min_depth: 30, max_depth: 50, rnt: 40 }] },
            RowRnt { repet_letter: String::from("D"), rnt: vec![Rnt { min_depth: 40, max_depth: 45, rnt: 41 }] },
            RowRnt { repet_letter: String::from("D"), rnt: vec![Rnt { min_depth: 60, max_depth: 70, rnt: 42 }] },
        ],
    };
    assert_eq!(DivePlan::new(35, 42, 30, 42).residual_nitrogen_time(&n, &r, &t), 41);
    assert_eq!(DivePlan::new(35, 42, 30, 32).residual_nitrogen_time(&n, &r, &t), 40);
}
