use memo_cache::config::Config;

#[test]
fn three_arguments_are_accepted() {
    let args = vec![
        String::from("minigrep"),
        String::from("needle"),
        String::from("haystack.txt"),
    ];
    let config = Config::new(&args).unwrap();
    assert_eq!(config.query, "needle");
    assert_eq!(config.filename, "haystack.txt");
}

#[test]
fn too_few_arguments_are_rejected() {
    let args = vec![String::from("minigrep"), String::from("needle")];
    assert_eq!(Config::new(&args).unwrap_err(), "not enough arguments");

    let none: Vec<String> = Vec::new();
    assert_eq!(Config::new(&none).unwrap_err(), "not enough arguments");
}
