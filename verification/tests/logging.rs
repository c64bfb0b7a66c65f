use easyhdr::utils::logging::{LogFileOp, rotation_plan};

fn describe(plan: &[LogFileOp]) -> Vec<String> {
    plan.iter()
        .map(|op| match op {
            LogFileOp::Remove(f) => format!("rm {f}"),
            LogFileOp::Rename { from, to } => format!("mv {from} {to}"),
        })
        .collect()
}

#[test]
fn test_rotate_logs_on_startup_basic() {
    let plan = rotation_plan("app.log", true, &vec![false; 9]);
    assert_eq!(describe(&plan), vec!["mv app.log app.log.1"]);
}

#[test]
fn nothing_to_rotate_without_current_log() {
    assert!(rotation_plan("app.log", false, &vec![true; 9]).is_empty());
}

#[test]
fn full_rotation_drops_the_oldest() {
    let plan = rotation_plan("app.log", true, &vec![true; 9]);
    let steps = describe(&plan);
    assert_eq!(steps.len(), 10);
    assert_eq!(steps[0], "rm app.log.9");
    assert_eq!(steps[1], "mv app.log.8 app.log.9");
    assert_eq!(steps[8], "mv app.log.1 app.log.2");
    assert_eq!(steps[9], "mv app.log app.log.1");
}

#[test]
fn gaps_are_skipped() {
    let mut exist = vec![false; 9];
    exist[0] = true;
    exist[2] = true;
    let steps = describe(&rotation_plan("app.log", true, &exist));
    assert_eq!(steps, vec!["mv app.log.3 app.log.4", "mv app.log.1 app.log.2", "mv app.log app.log.1"]);
}
