use servercore::process_tree::{child_pids, kill_order, DescendantWalk};

#[test]
fn pgrep_output_lists_child_ids_in_order() {
    assert_eq!(child_pids("4242\n  17 \r\n\nnot-a-pid\n+9\n4294967296\n"), vec![4242, 17, 9]);
    assert!(child_pids("").is_empty());
}

#[test]
fn descendant_walk_asks_each_process_once() {
    let mut walk = DescendantWalk::new(1);
    let mut asked = Vec::new();
    while let Some(parent) = walk.next_parent() {
        asked.push(parent);
        let children = match parent {
            1 => vec![10, 20],
            20 => vec![21, 10],
            21 => vec![20],
            _ => vec![],
        };
        walk.add_children(&children);
    }
    assert_eq!(asked, vec![1, 20, 21, 10]);
    assert_eq!(walk.found, vec![10, 20, 21]);
    assert!(walk.pending.is_empty());
}

#[test]
fn kill_order_lists_each_process_once_highest_first() {
    assert_eq!(kill_order(5, &vec![7, 3, 7, 12, 5]), vec![12, 7, 5, 3]);
    assert_eq!(kill_order(42, &vec![]), vec![42]);
}
