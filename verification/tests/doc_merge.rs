use mltt_elaborate::docs;
use mltt_elaborate::errors::TypeError;

#[test]
fn concat_strips_prefixes() {
    let lines = vec![
        "||| one\n".to_string(),
        "|||two\n".to_string(),
        "three\n".to_string(),
    ];
    assert_eq!(docs::concat(&lines), "one\ntwo\nthree\n".to_string());
}

#[test]
fn concat_empty() {
    let lines: Vec<String> = Vec::new();
    assert_eq!(docs::concat(&lines), "".to_string());
}

#[test]
fn concat_prefers_spaced_prefix() {
    // `||| ` takes the space with it; `|||` alone keeps what follows.
    let lines = vec!["||| a".to_string(), "||| b".to_string()];
    assert_eq!(docs::concat(&lines), "ab".to_string());
    let lines2 = vec!["|||  a".to_string()];
    assert_eq!(docs::concat(&lines2), " a".to_string());
}

#[test]
fn merge_both_empty() {
    let name = "thing".to_string();
    let none: Vec<String> = Vec::new();
    assert_eq!(docs::merge(&name, &none, &none), Ok("".to_string()));
}

#[test]
fn merge_one_side() {
    let name = "thing".to_string();
    let none: Vec<String> = Vec::new();
    let decl = vec!["||| decl docs\n".to_string()];
    let defn = vec!["||| defn docs\n".to_string()];
    assert_eq!(
        docs::merge(&name, &decl, &none),
        Ok("decl docs\n".to_string())
    );
    assert_eq!(
        docs::merge(&name, &none, &defn),
        Ok("defn docs\n".to_string())
    );
}

#[test]
fn merge_both_documented() {
    let name = "thing".to_string();
    let decl = vec!["||| decl docs\n".to_string()];
    let defn = vec!["||| defn docs\n".to_string()];
    assert_eq!(
        docs::merge(&name, &decl, &defn),
        Err(TypeError::AlreadyDocumented {
            name: "thing".to_string()
        })
    );
}
