use mint_vanity::persist::{
    address_records, default_file_name, format_from_lowered, labelled_output, parse_format, plan_save, same_text,
    txt_document, AddressRecord, OutputFormat, PersistError, SavePlan,
};
use mint_vanity::search::SearchOutcome;
use solana_sdk::signer::keypair::Keypair;

#[test]
fn format_names_in_any_case() {
    assert_eq!(parse_format("json"), Ok(OutputFormat::Json));
    assert_eq!(parse_format("JSON"), Ok(OutputFormat::Json));
    assert_eq!(parse_format("Txt"), Ok(OutputFormat::Txt));
}

#[test]
fn lowered_names() {
    assert_eq!(format_from_lowered("json"), Some(OutputFormat::Json));
    assert_eq!(format_from_lowered("txt"), Some(OutputFormat::Txt));
    assert_eq!(format_from_lowered("xml"), None);
    assert_eq!(format_from_lowered("JSON"), None);
}

#[test]
fn xml_is_unsupported() {
    assert_eq!(parse_format("xml"), Err(PersistError::UnsupportedFormat("xml".to_string())));
    let r = plan_save("pump", "xml", Some("out.xml"), "20240101_000000");
    assert_eq!(r, Err(PersistError::UnsupportedFormat("xml".to_string())));
    let r = plan_save("pump", "XML", None, "20240101_000000");
    assert_eq!(r, Err(PersistError::UnsupportedFormat("XML".to_string())));
}

#[test]
fn default_name_and_given_path() {
    assert_eq!(default_file_name("pump", "20240102_030405", "json"), "pump_addresses_20240102_030405.json");
    assert_eq!(
        plan_save("bonk", "TXT", None, "20240102_030405"),
        Ok(SavePlan { path: "bonk_addresses_20240102_030405.TXT".to_string(), format: OutputFormat::Txt })
    );
    assert_eq!(
        plan_save("bonk", "json", Some("out.json"), "t"),
        Ok(SavePlan { path: "out.json".to_string(), format: OutputFormat::Json })
    );
}

#[test]
fn labelled_output_names() {
    assert_eq!(labelled_output(Some("run"), "pump"), Some("run_pump".to_string()));
    assert_eq!(labelled_output(None, "bonk"), None);
}

#[test]
fn same_text_compares_whole_strings() {
    assert!(same_text("json", "json"));
    assert!(!same_text("xjson", "json"));
    assert!(!same_text("jso", "json"));
    assert!(same_text("", ""));
}

fn outcomes(addresses: &[&str]) -> Vec<SearchOutcome> {
    addresses
        .iter()
        .map(|a| SearchOutcome::with_address(Keypair::new(), a.to_string()))
        .collect()
}

#[test]
fn records_carry_address_and_base58_secret() {
    let results = outcomes(&["Apump", "Bpump"]);
    let records = address_records(&results, "pump", "2024-01-01T00:00:00+00:00");
    assert_eq!(records.len(), 2);
    for (rec, out) in records.iter().zip(results.iter()) {
        assert_eq!(&rec.pub_key, out.address());
        assert_eq!(rec.suffix_type, "pump");
        assert_eq!(rec.created_at, "2024-01-01T00:00:00+00:00");
        let decoded = bs58::decode(&rec.private_key).into_vec().unwrap();
        assert_eq!(decoded, out.keypair().to_bytes().to_vec());
        assert_eq!(rec.private_key, bs58::encode(out.keypair().to_bytes()).into_string());
    }
}

#[test]
fn txt_document_layout() {
    let records = vec![
        AddressRecord {
            pub_key: "P1pump".to_string(),
            private_key: "S1".to_string(),
            suffix_type: "pump".to_string(),
            created_at: "T".to_string(),
        },
        AddressRecord {
            pub_key: "P2pump".to_string(),
            private_key: "S2".to_string(),
            suffix_type: "pump".to_string(),
            created_at: "T".to_string(),
        },
    ];
    let doc = txt_document(&records, "pump", "T0");
    let expected = "# Solana Mint Addresses - Generated with suffix 'pump'\n\
# Generated at: T0\n\
# Format: public_key,private_key,suffix_type\n\
\n\
P1pump,S1,pump\n\
P2pump,S2,pump\n";
    assert_eq!(doc, expected);
    let empty = txt_document(&Vec::new(), "bonk", "T0");
    assert!(empty.ends_with("suffix_type\n\n"));
}

fn to_json(r: &AddressRecord) -> serde_json::Value {
    let mut m = serde_json::Map::new();
    m.insert("pub_key".to_string(), serde_json::Value::String(r.pub_key.clone()));
    m.insert("private_key".to_string(), serde_json::Value::String(r.private_key.clone()));
    m.insert("suffix_type".to_string(), serde_json::Value::String(r.suffix_type.clone()));
    m.insert("created_at".to_string(), serde_json::Value::String(r.created_at.clone()));
    serde_json::Value::Object(m)
}

#[test]
fn json_round_trip_keeps_fields() {
    let results = outcomes(&["Xpump", "Ypump", "Zpump"]);
    let records = address_records(&results, "pump", "2024-01-01T00:00:00+00:00");
    let arr = serde_json::Value::Array(records.iter().map(to_json).collect());
    let text = serde_json::to_string_pretty(&arr).unwrap();
    let back: serde_json::Value = serde_json::from_str(&text).unwrap();
    let items = back.as_array().unwrap();
    assert_eq!(items.len(), records.len());
    for (item, rec) in items.iter().zip(records.iter()) {
        assert_eq!(item["pub_key"].as_str().unwrap(), rec.pub_key);
        assert_eq!(item["private_key"].as_str().unwrap(), rec.private_key);
        assert_eq!(item["suffix_type"].as_str().unwrap(), rec.suffix_type);
    }
    for (rec, out) in records.iter().zip(results.iter()) {
        assert_eq!(rec.private_key, bs58::encode(out.keypair().to_bytes()).into_string());
    }
}

#[test]
fn txt_lines_hold_each_keypair_secret() {
    let results = outcomes(&["Apump", "Bpump"]);
    let records = address_records(&results, "pump", "T");
    let doc = txt_document(&records, "pump", "T");
    let lines: Vec<&str> = doc.lines().filter(|l| !l.is_empty() && !l.starts_with('#')).collect();
    assert_eq!(lines.len(), 2);
    for (line, out) in lines.iter().zip(results.iter()) {
        let fields: Vec<&str> = line.split(',').collect();
        let secret = bs58::encode(out.keypair().to_bytes()).into_string();
        assert_eq!(fields, vec![out.address().as_str(), secret.as_str(), "pump"]);
    }
}
