use space_traders_cli::completion::{command_names, ReplHelper};

fn strs(v: &[&str]) -> Vec<String> {
    v.iter().map(|s| s.to_string()).collect()
}

#[test]
fn agent_prefix_offers_the_agent_branch() {
    let h = ReplHelper::new();
    assert_eq!(
        h.complete("agent "),
        strs(&["agent list-agents", "agent info", "agent info -c"])
    );
}

#[test]
fn every_branch_prefix_offers_its_own_entries() {
    let h = ReplHelper::new();
    assert_eq!(
        h.complete("account "),
        strs(&["account register", "account register -c", "account register -f"])
    );
    assert_eq!(
        h.complete("contract "),
        strs(&[
            "contract list",
            "contract list -c",
            "contract info",
            "contract info -c",
            "contract info -i",
            "contract accept",
            "contract accept -c",
            "contract accept -i",
        ])
    );
    assert_eq!(
        h.complete("system "),
        strs(&[
            "system list-waypoints",
            "system list-waypoints --system",
            "system list-waypoints --type",
            "system list-waypoints --trait",
        ])
    );
}

#[test]
fn short_prefixes_and_shell_words() {
    let h = ReplHelper::new();
    assert_eq!(h.complete("a"), {
        let mut v = strs(&["account", "account register", "account register -c", "account register -f"]);
        v.extend(strs(&["agent", "agent list-agents", "agent info", "agent info -c"]));
        v
    });
    assert_eq!(h.complete("ex"), strs(&["exit"]));
    assert_eq!(h.complete("h"), strs(&["help"]));
    assert_eq!(h.complete("zzz"), Vec::<String>::new());
    assert_eq!(h.complete("").len(), h.commands.len());
}

#[test]
fn names_list_branches_then_leaves_then_flags() {
    let names = command_names();
    assert_eq!(names.len(), 22);
    assert_eq!(names[0], "account");
    assert_eq!(names[4], "agent");
    assert_eq!(names[8], "contract");
    assert_eq!(names[17], "system");
    let h = ReplHelper::new();
    assert_eq!(h.commands.len(), 24);
    assert_eq!(h.commands[22], "exit");
    assert_eq!(h.commands[23], "help");
}
