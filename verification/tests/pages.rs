use power_pizza_bot::bot::pages::{
    escape_description, minutes_seconds, pack, paginate, paragraphs, MESSAGE_LIMIT,
};

/// The messages as a loop over `split` gathers them.
fn by_split(response: &str) -> Vec<String> {
    let mut sent = vec![];
    let mut message = String::with_capacity(4096);
    for chunk in response.split("\n\n") {
        if message.len() + chunk.len() + 2 > 4096 {
            sent.push(message.clone());
            message.clear();
        } else {
            message.push_str("\n\n");
        }
        message.push_str(chunk);
    }
    if !message.is_empty() {
        sent.push(message);
    }
    sent
}

#[test]
fn paragraphs_are_parted_by_empty_lines() {
    assert_eq!(paragraphs("uno\n\ndue\ntre\n\nquattro"), vec!["uno", "due\ntre", "quattro"]);
    assert_eq!(paragraphs("uno"), vec!["uno"]);
    assert_eq!(paragraphs(""), vec![""]);
    assert_eq!(paragraphs("\n\n"), vec!["", ""]);
    assert_eq!(paragraphs("a\n\n\nb"), vec!["a", "\nb"]);
    assert_eq!(paragraphs("a\n\n\n\nb\n"), vec!["a", "", "b\n"]);
    assert_eq!(paragraphs("è\n\né\n"), vec!["è", "é\n"]);
}

#[test]
fn paragraphs_agree_with_split() {
    let alphabet = ['a', '\n', 'è'];
    let mut texts = vec![String::new()];
    for _ in 0..7 {
        let mut longer = vec![];
        for t in &texts {
            for c in alphabet {
                let mut l = t.clone();
                l.push(c);
                longer.push(l);
            }
        }
        for l in &longer {
            let expected: Vec<String> = l.split("\n\n").map(|p| p.to_string()).collect();
            assert_eq!(paragraphs(l), expected, "on {:?}", l);
        }
        texts = longer;
    }
}

#[test]
fn a_short_response_is_one_message_behind_an_empty_line() {
    assert_eq!(MESSAGE_LIMIT, 4096);
    assert_eq!(paginate("uno\n\ndue"), vec!["\n\nuno\n\ndue"]);
    assert_eq!(paginate("uno"), vec!["\n\nuno"]);
    assert_eq!(paginate(""), vec!["\n\n"]);
}

#[test]
fn a_paragraph_that_does_not_fit_begins_the_next_message() {
    let a = "a".repeat(3000);
    let b = "b".repeat(1090);
    let c = "c".repeat(10);
    // 3002 bytes held, 1090 more and the empty line between: 4094, which fits
    assert_eq!(paginate(&format!("{}\n\n{}", a, b)), vec![format!("\n\n{}\n\n{}", a, b)]);
    // 4094 bytes held, 10 more and the empty line between: over the limit
    assert_eq!(
        paginate(&format!("{}\n\n{}\n\n{}", a, b, c)),
        vec![format!("\n\n{}\n\n{}", a, b), c.clone()]
    );
    let d = "d".repeat(1093);
    assert_eq!(
        paginate(&format!("{}\n\n{}\n\n{}", a, d, c)),
        vec![format!("\n\n{}", a), format!("{}\n\n{}", d, c)]
    );
}

#[test]
fn the_limit_counts_bytes() {
    let a = "è".repeat(1500);
    let b = "b".repeat(1093);
    assert_eq!(paginate(&format!("{}\n\n{}", a, b)), vec![format!("\n\n{}", a), b.clone()]);
    let b = "b".repeat(1092);
    assert_eq!(paginate(&format!("{}\n\n{}", a, b)), vec![format!("\n\n{}\n\n{}", a, b)]);
}

#[test]
fn a_paragraph_over_the_limit_is_sent_alone() {
    let long = "x".repeat(5000);
    assert_eq!(paginate(&long), vec![String::new(), long.clone()]);
    assert_eq!(
        paginate(&format!("uno\n\n{}\n\ndue", long)),
        vec!["\n\nuno".to_string(), long.clone(), "due".to_string()]
    );
}

#[test]
fn messages_agree_with_a_loop_over_split() {
    let pieces = ["", "x", "\n", "\n\n", &"y".repeat(2046), &"z".repeat(4095), "è"];
    for a in pieces {
        for b in pieces {
            for c in pieces {
                for d in pieces {
                    let response = format!("{}{}{}{}", a, b, c, d);
                    assert_eq!(paginate(&response), by_split(&response));
                }
            }
        }
    }
}

#[test]
fn pack_of_no_paragraphs_is_no_message() {
    assert!(pack(&vec![]).is_empty());
    assert_eq!(pack(&vec!["a".to_string(), "b".to_string()]), vec!["\n\na\n\nb"]);
}

#[test]
fn descriptions_are_escaped_for_markdown() {
    assert_eq!(escape_description("Es. `/s pokemon` (beta): -x!"), "Es\\. `/s pokemon` \\(beta\\)\\: \\-x\\!");
    assert_eq!(escape_description("niente da fare"), "niente da fare");
    assert_eq!(escape_description(""), "");
    assert_eq!(escape_description("è: é"), "è\\: é");
}

#[test]
fn seconds_as_minutes_and_seconds() {
    assert_eq!(minutes_seconds(0), (0, 0));
    assert_eq!(minutes_seconds(59), (0, 59));
    assert_eq!(minutes_seconds(60), (1, 0));
    assert_eq!(minutes_seconds(3469), (57, 49));
}
