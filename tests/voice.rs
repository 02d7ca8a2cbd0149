use cst::{
    from_bytes, Body, CstVal, Deserializer, EndOfFeatures, Error, F0Tree, Features, Gender,
    Header, Language, Tree, TreeDb, TreeFeatures, TreeNode,
};

fn start() -> Vec<u8> {
    b"CMU_FLITE_CG_VOXDATA-v2.0\0\x01\0\0\0".to_vec()
}

fn text(out: &mut Vec<u8>, s: &str) {
    out.extend_from_slice(&(s.len() as u32 + 1).to_le_bytes());
    out.extend_from_slice(s.as_bytes());
    out.push(0);
}

fn raw(out: &mut Vec<u8>, v: u32) {
    out.extend_from_slice(&v.to_le_bytes());
}

fn field(out: &mut Vec<u8>, name: &str, value: &str) {
    text(out, name);
    text(out, value);
}

fn features_bytes(out: &mut Vec<u8>, num_f0_models: &str) {
    field(out, "language", "eng");
    field(out, "country", "USA");
    field(out, "variant", "none");
    field(out, "age", "30");
    field(out, "gender", "unknown");
    field(out, "build_date", "Thu Sep 14 23:37:00 2017");
    field(out, "description", "unknown");
    field(out, "eng_shared", "0");
    field(out, "copyright", "unknown");
    field(out, "num_dur_models", "3");
    field(out, "num_param_models", "3");
    field(out, "model_shape", "3");
    field(out, "num_f0_models", num_f0_models);
    field(out, "end_of_features", "end_of_features");
}

fn features(num_f0_models: u32) -> Features {
    Features {
        language: "eng".to_string(),
        country: "USA".to_string(),
        variant: "none".to_string(),
        age: 30,
        gender: Gender::Unknown,
        build_date: "Thu Sep 14 23:37:00 2017".to_string(),
        description: "unknown".to_string(),
        eng_shared: 0,
        copyright: "unknown".to_string(),
        num_dur_models: 3,
        num_param_models: 3,
        model_shape: 3,
        num_f0_models,
        end_of_features: EndOfFeatures::EndOfFeatures,
    }
}

fn header(num_f0_models: u32) -> Header {
    Header { features: features(num_f0_models), name: "cmu_us_slt".to_string() }
}

fn body_head_bytes(out: &mut Vec<u8>) {
    raw(out, 2);
    text(out, "aa_1");
    text(out, "aa_2");
    raw(out, 0x7c);
    raw(out, 0x3e80);
    out.extend_from_slice(&[0, 0, 0x2c, 0x43]);
    out.extend_from_slice(&[0, 0, 0xd8, 0x41]);
}

/// One F0 tree holding one tree whose node value is the integer `k`.
fn f0_tree_bytes(out: &mut Vec<u8>, k: u32) {
    raw(out, 1);
    raw(out, 4);
    raw(out, 2);
    raw(out, 9);
    raw(out, 1);
    raw(out, k);
    raw(out, 1);
    text(out, "p.name");
}

fn f0_tree(k: i32) -> F0Tree {
    F0Tree(vec![Tree(
        TreeNode(4, 2, 9, CstVal::Int(k)),
        TreeFeatures(vec!["p.name".to_string()]),
    )])
}

#[test]
fn cst_val_tag_five_holds_text() {
    let mut data = start();
    raw(&mut data, 5);
    text(&mut data, "pau");
    assert_eq!(CstVal::Str("pau".to_string()), from_bytes::<CstVal>(&data).unwrap());
}

#[test]
fn cst_val_other_tags() {
    let cases: [(u32, u32, CstVal); 5] = [
        (0, 11, CstVal::Cons(11)),
        (1, 12, CstVal::Int(12)),
        (3, 1.25f32.to_bits(), CstVal::Float(1.25f32.to_bits())),
        (7, 13, CstVal::FirstFree(13)),
        (42, (-1i32) as u32, CstVal::Other(-1)),
    ];
    for (tag, payload, expected) in cases {
        let mut data = start();
        raw(&mut data, tag);
        raw(&mut data, payload);
        assert_eq!(expected, from_bytes::<CstVal>(&data).unwrap());
    }
    let mut short = start();
    raw(&mut short, 1);
    assert_eq!(Err(Error::Eof), from_bytes::<CstVal>(&short));
}

#[test]
fn header_decodes() {
    let mut data = start();
    features_bytes(&mut data, "3");
    text(&mut data, "cmu_us_slt");
    assert_eq!(header(3), from_bytes::<Header>(&data).unwrap());
}

#[test]
fn record_field_out_of_place_is_refused() {
    let mut data = start();
    field(&mut data, "language", "eng");
    field(&mut data, "variant", "none");
    field(&mut data, "country", "USA");
    assert_eq!(Err(Error::FieldNotFound("country")), from_bytes::<Features>(&data));
}

#[test]
fn body_without_f0_models_reads_no_trees() {
    let mut data = start();
    body_head_bytes(&mut data);
    data.extend_from_slice(b"trailing");
    let mut d = Deserializer::from_bytes(&data);
    d.validate_header().unwrap();
    let body = Body::decode_with(&mut d, &header(0)).unwrap();
    assert!(body.f0_trees.is_empty());
    assert_eq!(vec!["aa_1".to_string(), "aa_2".to_string()], body.db_types);
    assert_eq!(0x7c, body.num_types);
    assert_eq!(0x3e80, body.sample_rate);
    assert_eq!(172.0f32, f32::from_bits(body.f0_mean));
    assert_eq!(27.0f32, f32::from_bits(body.f0_stddev));
    assert_eq!(Ok(u32::from_le_bytes(*b"trai")), d.parse_u32());
}

#[test]
fn body_reads_as_many_trees_as_the_header_says() {
    let mut data = start();
    body_head_bytes(&mut data);
    f0_tree_bytes(&mut data, 1);
    f0_tree_bytes(&mut data, 2);
    f0_tree_bytes(&mut data, 3);
    let mut d = Deserializer::from_bytes(&data);
    d.validate_header().unwrap();
    let body = Body::decode_with(&mut d, &header(3)).unwrap();
    assert_eq!(vec![f0_tree(1), f0_tree(2), f0_tree(3)], body.f0_trees);
    assert!(d.is_empty());
    let mut d = Deserializer::from_bytes(&data);
    d.validate_header().unwrap();
    assert_eq!(Err(Error::Eof), Body::decode_with(&mut d, &header(4)));
}

#[test]
fn tree_db_decodes_header_then_body() {
    let mut data = start();
    features_bytes(&mut data, "2");
    text(&mut data, "cmu_us_slt");
    body_head_bytes(&mut data);
    f0_tree_bytes(&mut data, 5);
    f0_tree_bytes(&mut data, 6);
    let db = from_bytes::<TreeDb>(&data).unwrap();
    assert_eq!(&header(2), db.header());
    assert_eq!(vec![f0_tree(5), f0_tree(6)], db.body().f0_trees);
}

#[test]
fn language_names() {
    assert_eq!(Some(Language::English), Language::from_name("eng"));
    assert_eq!(None, Language::from_name("deu"));
    let mut data = start();
    text(&mut data, "eng");
    assert_eq!(Language::English, from_bytes::<Language>(&data).unwrap());
}
