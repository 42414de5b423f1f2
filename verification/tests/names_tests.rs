use aurr_manager::names::{by_name, GetName, HasName, LocalResource};
use aurr_manager::tools::Tool;
use aurr_manager::objects::{AurrObject, AurrObjectType, TaskTable};
use aurr_manager::shell::Shell;
use aurr_manager::table::SortedTable;

#[test]
fn names_of_local_resources() {
    assert_eq!(LocalResource::Text("a/b/c".to_string()).get_name(), "c");
    assert_eq!(LocalResource::Text("a/b/".to_string()).get_name(), "b");
    assert_eq!(LocalResource::Text("a//".to_string()).get_name(), "");
    assert_eq!(LocalResource::Text("plain".to_string()).get_name(), "plain");
    assert_eq!(LocalResource::Entry("file.bin".to_string()).get_name(), "file.bin");
    for s in ["a/b/c", "a/b/", "a//", "plain", "/", "x/"] {
        let expected = s.split_terminator("/").collect::<Vec<&str>>().last().unwrap().to_string();
        assert_eq!(LocalResource::Text(s.to_string()).get_name(), expected, "{}", s);
    }
}

#[test]
fn base_name_of_an_object_is_its_file() {
    let o = AurrObject::from_parts(
        "Velo".to_string(),
        AurrObjectType::Tool,
        String::new(),
        String::new(),
        String::new(),
        Shell::Bash,
        "C:\\t\\velo.exe".to_string(),
        TaskTable::new(),
        SortedTable::new(),
    );
    let r = LocalResource::AurrObject(o);
    assert_eq!(r.get_name(), "Velo");
    assert_eq!(r.get_base_name(), "velo.exe");
    assert_eq!(LocalResource::Text("x/y".to_string()).get_base_name(), "y");
}

#[test]
fn by_name_keeps_the_last_of_a_name() {
    let tool = |name: &str, author: &str| Tool {
        name: name.to_string(),
        author: author.to_string(),
        task: String::new(),
        localpath: String::new(),
        config_tag: String::new(),
        mandatory_steps: None,
        call: SortedTable::new(),
    };
    let t = by_name(vec![tool("b", "1"), tool("a", "2"), tool("b", "3")]);
    assert_eq!(t.keys(), vec!["a", "b"]);
    assert_eq!(t.get("b").unwrap().author, "3");
    assert_eq!(t.get("a").unwrap().name(), "a");
}

#[test]
fn what_an_upload_reads_and_writes() {
    assert_eq!(
        LocalResource::Text("dir/f.txt".to_string()).upload_source("blob"),
        Some(("dir/f.txt".to_string(), "blob".to_string()))
    );
    assert_eq!(LocalResource::Entry("f".to_string()).upload_source("blob"), None);
    let o = AurrObject::from_parts(
        "Obj".to_string(),
        AurrObjectType::File,
        String::new(),
        String::new(),
        String::new(),
        Shell::Bash,
        "p/o.bin".to_string(),
        TaskTable::new(),
        SortedTable::new(),
    );
    assert_eq!(
        LocalResource::AurrObject(o).upload_source("ignored"),
        Some(("p/o.bin".to_string(), "Obj".to_string()))
    );
}
