use shopping_list::{cli_action, render_list, seed_list, tokenize, Action, Notice, Step, Style};

#[test]
fn buying_everything_ends_the_session() {
    let mut list = seed_list();
    assert_eq!(list.iter().filter(|entry| entry.bought).count(), 1);

    let step = cli_action(tokenize("buy 0"), &mut list);
    assert_eq!(step, Step { notice: None, action: Action::Show });

    let step = cli_action(tokenize("buy 1"), &mut list);
    assert_eq!(step, Step { notice: None, action: Action::Finish });

    assert_eq!(
        render_list(&list, Style::Plain),
        vec!["0: Milk [1] - BOUGHT", "1: Eggs [10] - BOUGHT", "2: Rohlik [5] - BOUGHT"]
    );
    assert_eq!(Notice::AllBought.text(), "You bought everything you needed!");
}

#[test]
fn add_then_list_shows_the_new_entry_last() {
    let mut list = seed_list();
    assert_eq!(cli_action(tokenize("add Bread 2"), &mut list).notice, None);
    let step = cli_action(tokenize("list"), &mut list);
    assert_eq!(step, Step { notice: None, action: Action::Show });
    assert_eq!(list.len(), 4);
    assert_eq!(list[3].to_string(), "Bread [2] - NOT BOUGHT");
    assert_eq!(
        render_list(&list, Style::Plain),
        vec![
            "0: Milk [1] - NOT BOUGHT",
            "1: Eggs [10] - NOT BOUGHT",
            "2: Rohlik [5] - BOUGHT",
            "3: Bread [2] - NOT BOUGHT"
        ]
    );
}

#[test]
fn a_session_of_several_lines() {
    let mut list = seed_list();
    let lines =
        ["add Butter 250", "remove 0", "buy 5", "buy +0", "  buy\t2  ", "nonsense", "buy 1"];
    let mut steps = Vec::new();
    for line in lines {
        steps.push(cli_action(tokenize(line), &mut list));
    }
    assert_eq!(
        steps,
        vec![
            Step { notice: None, action: Action::Show },
            Step { notice: None, action: Action::Show },
            Step { notice: Some(Notice::InvalidIndex), action: Action::Show },
            Step { notice: None, action: Action::Show },
            Step { notice: None, action: Action::Finish },
            Step { notice: Some(Notice::InvalidCommand), action: Action::Show },
            Step { notice: None, action: Action::Finish },
        ]
    );
    assert_eq!(
        render_list(&list, Style::Plain),
        vec!["0: Eggs [10] - BOUGHT", "1: Rohlik [5] - BOUGHT", "2: Butter [250] - BOUGHT"]
    );
}
