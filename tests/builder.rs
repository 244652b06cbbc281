use cmdi::builder::Builder;
use cmdi::opencli::{ArgumentElement, CommandElement, Contact, Conventions, Info, License, OptionElement, V0_1};
use cmdi::token::{CommandContext, Token};

fn option(name: &str, description: &str, required: bool) -> OptionElement {
    OptionElement {
        aliases: None,
        arguments: None,
        description: Some(description.to_string()),
        group: None,
        hidden: false,
        metadata: None,
        name: name.to_string(),
        recursive: false,
        required,
    }
}

fn argument(name: &str, required: bool) -> ArgumentElement {
    ArgumentElement {
        accepted_values: None,
        arity: None,
        description: None,
        group: None,
        hidden: false,
        metadata: None,
        name: name.to_string(),
        required,
    }
}

fn command(
    name: &str,
    description: &str,
    arguments: Option<Vec<ArgumentElement>>,
    options: Option<Vec<OptionElement>>,
) -> CommandElement {
    CommandElement {
        aliases: None,
        arguments,
        commands: None,
        description: Some(description.to_string()),
        examples: None,
        exit_codes: None,
        hidden: false,
        interactive: false,
        metadata: None,
        name: name.to_string(),
        options,
    }
}

fn sample_v0_1() -> V0_1 {
    V0_1 {
        arguments: None,
        commands: Some(vec![
            command(
                "get",
                "Display one or many resources",
                Some(vec![argument("resource", true), argument("name", false)]),
                Some(vec![
                    option("--namespace", "If present, the namespace scope for this CLI request", false),
                    option("-o", "Output format. One of: json|yaml|wide", false),
                ]),
            ),
            command(
                "apply",
                "Apply a configuration to a resource by filename or stdin",
                None,
                Some(vec![option("-f", "Filename or directory to apply", true)]),
            ),
            command(
                "delete",
                "Delete resources by filenames, stdin, resources and names, or by label selector",
                Some(vec![argument("resource", true), argument("name", false)]),
                None,
            ),
        ]),
        conventions: Some(Conventions {
            group_options: Some(true),
            option_separator: Some(" ".to_string()),
        }),
        examples: Some(vec![
            "kubectl get pods".to_string(),
            "kubectl apply -f deployment.yaml".to_string(),
            "kubectl delete pod nginx".to_string(),
        ]),
        exit_codes: None,
        info: Info {
            contact: Some(Contact {
                email: Some("kubernetes-dev@googlegroups.com".to_string()),
                name: Some("Kubernetes Contributors".to_string()),
                url: Some("https://kubernetes.io/docs/reference/kubectl/".to_string()),
            }),
            description: Some(
                "kubectl controls Kubernetes clusters. You can deploy applications, inspect and manage cluster resources, and view logs."
                    .to_string(),
            ),
            license: Some(License {
                identifier: Some("Apache-2.0".to_string()),
                name: Some("Apache License 2.0".to_string()),
            }),
            summary: Some("Command-line tool for controlling Kubernetes clusters".to_string()),
            title: "kubectl".to_string(),
            version: "1.29.0".to_string(),
        },
        interactive: false,
        metadata: None,
        opencli: "0.1".to_string(),
        options: Some(vec![
            option("--kubeconfig", "Path to the kubeconfig file to use", false),
            option("--context", "The name of the kubeconfig context to use", false),
        ]),
    }
}

fn sample_command_element() -> CommandElement {
    sample_v0_1().commands.unwrap().first().unwrap().clone()
}

fn sub_command() -> Token {
    Token::SubCommandToken {
        ctx: CommandContext::new(0, sample_command_element()),
        details: vec![],
    }
}

#[test]
fn test_new_builder() {
    let spec = sample_v0_1();
    let builder = Builder::new(spec.clone());
    assert_eq!(builder.tokens().len(), 1);
    assert!(matches!(builder.tokens()[0], Token::PlaceholderToken));
    assert_eq!(builder.pos_at_selected(), 0);
    assert_eq!(builder.command_spec.info.title, spec.info.title);
}

#[test]
fn test_new_demo_builder_adds_placeholder() {
    let spec = sample_v0_1();
    let tokens = vec![sub_command()];
    let builder = Builder::new_demo(spec, tokens.clone());

    assert_eq!(builder.tokens().len(), tokens.len() + 1);
    assert!(matches!(builder.tokens().last().unwrap(), Token::PlaceholderToken));
}

#[test]
fn test_condition_tokens_no_action_if_last_is_placeholder() {
    let spec = sample_v0_1();
    let builder = Builder::new_demo(spec, vec![Token::PlaceholderToken]);
    assert_eq!(builder.tokens().len(), 1);
    assert!(matches!(builder.tokens()[0], Token::PlaceholderToken));
}

#[test]
fn test_command_context_at_selected_returns_last_command_token() {
    let spec = sample_v0_1();
    let tokens = vec![sub_command(), Token::PlaceholderToken];
    let mut builder = Builder::new_demo(spec, tokens);
    builder.select(1);

    let context = builder.command_context_at_selected();
    assert!(context.is_some());
    assert_eq!(context.unwrap().spec.name, "get");
}

#[test]
fn test_token_at_selected_returns_correct_token() {
    let spec = sample_v0_1();

    // A single placeholder.
    let builder = Builder::new_demo(spec.clone(), vec![Token::PlaceholderToken]);
    let token = builder.token_at_selected();
    assert!(matches!(token.unwrap(), Token::PlaceholderToken));

    // Several tokens, the first selected.
    let cmd1 = sub_command();
    let builder = Builder::new_demo(spec.clone(), vec![cmd1.clone(), Token::PlaceholderToken]);
    let token = builder.token_at_selected();
    assert!(matches!(token.unwrap(), Token::SubCommandToken { .. }));

    // A token in the middle selected.
    let mut builder = Builder::new_demo(
        spec.clone(),
        vec![cmd1.clone(), Token::PlaceholderToken, cmd1.clone()],
    );
    builder.select(1);
    let token = builder.token_at_selected();
    assert!(matches!(token.unwrap(), Token::PlaceholderToken));

    builder.select(2);
    let token = builder.token_at_selected();
    assert!(matches!(token.unwrap(), Token::SubCommandToken { .. }));

    // A position beyond the tokens.
    let mut builder = Builder::new_demo(spec.clone(), vec![cmd1.clone()]);
    builder.select(5);
    let token = builder.token_at_selected();
    assert!(token.is_none());

    // A fresh builder holds a placeholder.
    let mut builder = Builder::new(spec.clone());
    builder.select(0);
    let token = builder.token_at_selected();
    assert!(matches!(token.unwrap(), Token::PlaceholderToken));
}

#[test]
fn test_replace_at_selected_replaces_and_adds_placeholder() {
    let spec = sample_v0_1();
    let mut builder = Builder::new_demo(spec, vec![Token::PlaceholderToken]);

    builder.replace_at_selected(sub_command()).unwrap();

    assert!(matches!(builder.tokens()[0], Token::SubCommandToken { .. }));
    assert!(matches!(builder.tokens()[1], Token::PlaceholderToken));
}

#[test]
fn test_replace_at_selected_out_of_bounds() {
    let spec = sample_v0_1();
    let mut builder = Builder::new(spec);

    builder.select(5);
    let result = builder.replace_at_selected(sub_command());

    assert!(result.is_err());
}

#[test]
fn test_insert_below_selected_replaces_placeholder() {
    let spec = sample_v0_1();
    let mut builder = Builder::new(spec);

    builder.insert_below_selected(sub_command()).unwrap();

    assert!(matches!(builder.tokens()[0], Token::SubCommandToken { .. }));
    assert!(matches!(builder.tokens()[1], Token::PlaceholderToken));
}

#[test]
fn test_insert_below_selected_inserts_after_non_placeholder() {
    let spec = sample_v0_1();
    let mut builder = Builder::new_demo(spec, vec![sub_command(), Token::PlaceholderToken]);

    builder.select(0);
    builder.insert_below_selected(sub_command()).unwrap();

    assert_eq!(builder.tokens().len(), 3);
    assert!(matches!(builder.tokens()[1], Token::SubCommandToken { .. }));
}

#[test]
fn test_selected_up_down() {
    let spec = sample_v0_1();
    let mut builder = Builder::new(spec);

    builder.selected_down();
    assert_eq!(builder.pos_at_selected(), 0);

    builder.selected_up();
    assert_eq!(builder.pos_at_selected(), 0);

    builder.selected_up();
    assert_eq!(builder.pos_at_selected(), 0);
}

#[test]
fn test_selected_down_does_not_exceed_len() {
    let spec = sample_v0_1();
    let mut builder = Builder::new(spec);
    builder.select(100);

    builder.selected_down();
    assert_eq!(builder.pos_at_selected(), builder.tokens().len() - 1);
}

#[test]
fn test_select_down_can_not_move_beyond_limit() {
    let spec = sample_v0_1();
    let mut builder = Builder::new(spec);
    builder.selected_down();

    assert_eq!(builder.pos_at_selected(), 0);
}
