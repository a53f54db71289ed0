use solisp_tools::error::Error;
use solisp_tools::tools::stdlib::{characters, hash_tables, parsing, statistics, strings};
use solisp_tools::tools::{Tool, ToolRegistry};
use solisp_tools::value::Value;

struct Stand(&'static str);

impl Tool for Stand {
    fn name(&self) -> &str {
        self.0
    }

    fn description(&self) -> &str {
        "a tool supplied by the caller"
    }

    fn execute(&self, _args: &[Value]) -> Result<Value, Error> {
        Ok(Value::String(self.0.to_string()))
    }
}

fn register_strings(r: &mut ToolRegistry) {
    strings::register(r, Stand("STRING"), Stand("FORMAT"), Stand("SPRINTF"), Stand("STR"), Stand("TO-STRING"));
}

#[test]
fn strings_module_registers_every_name() {
    let mut r = ToolRegistry::empty();
    register_strings(&mut r);
    assert_eq!(r.count(), 64);
    for n in ["STRING-SPLIT", "SPLIT", "STRING-JOIN", "JOIN", "FORMAT", "SPRINTF", "CHAR-AT", "CHAR-AT-INDEX", "SUBSEQ", "SUBSTRING", "STR", "TO-STRING", "CONCAT", "STRING-APPEND", "UPPER-CASE-P"] {
        assert!(r.has(n), "{}", n);
    }
    assert_eq!(r.get("sprintf").unwrap().execute(&[]).unwrap(), Value::String("SPRINTF".to_string()));
}

#[test]
fn characters_after_strings() {
    let mut r = ToolRegistry::empty();
    register_strings(&mut r);
    characters::register(&mut r);
    assert_eq!(r.count(), 82);
    assert_eq!(r.get("BOTH-CASE-P").unwrap().execute(&[Value::String("a".into())]).unwrap(), Value::Bool(true));
    let mut c = ToolRegistry::empty();
    characters::register(&mut c);
    assert_eq!(c.count(), 21);
}

#[test]
fn statistics_and_hash_tables_and_parsing_modules() {
    let mut r = ToolRegistry::empty();
    statistics::register(&mut r, Stand("MEAN"), Stand("MEDIAN"), Stand("STDDEV"));
    assert_eq!(r.list_tools(), vec!["MAX", "MEAN", "MEDIAN", "MIN", "STDDEV"]);
    let mut h = ToolRegistry::empty();
    hash_tables::register(&mut h, Stand("SXHASH"));
    assert_eq!(h.count(), 24);
    assert!(h.has("SXHASH"));
    let mut p = ToolRegistry::empty();
    parsing::register(&mut p, Stand("parse-json"), Stand("json-stringify"), Stand("parse-float"));
    assert_eq!(p.count(), 12);
    assert!(p.has("parse-json") && p.has("parse-csv") && p.has("hex-encode") && !p.has("PARSE-JSON"));
    assert_eq!(p.get("PARSE-JSON").unwrap().name(), "parse-json");
}
