use fishmael_cache::list::{encode_ids, encode_texts, push_bytes};

fn split_ids(text: &[u8]) -> Vec<u64> {
    if text.is_empty() {
        return Vec::new();
    }
    text.split(|b| *b == b',')
        .map(|piece| std::str::from_utf8(piece).unwrap().parse::<u64>().unwrap())
        .collect()
}

#[test]
fn empty_list_joins_to_the_empty_value() {
    assert_eq!(encode_ids(&Vec::new()), Vec::<u8>::new());
}

#[test]
fn single_id_has_no_separator() {
    assert_eq!(encode_ids(&vec![42]), b"42".to_vec());
}

#[test]
fn ids_are_joined_by_commas_in_order() {
    assert_eq!(encode_ids(&vec![1, 2, 3]), b"1,2,3".to_vec());
    assert_eq!(encode_ids(&vec![3, 1, 2]), b"3,1,2".to_vec());
}

#[test]
fn repeated_and_extreme_ids_are_kept() {
    assert_eq!(
        encode_ids(&vec![0, 0, u64::MAX, 10]),
        b"0,0,18446744073709551615,10".to_vec()
    );
}

#[test]
fn joined_ids_split_back_into_the_same_list() {
    let lists: Vec<Vec<u64>> = vec![
        vec![],
        vec![0],
        vec![7],
        vec![1, 2, 3],
        vec![10, 100, 1000, 0],
        vec![u64::MAX, 1, u64::MAX],
    ];
    for ids in lists {
        assert_eq!(split_ids(&encode_ids(&ids)), ids);
    }
}

#[test]
fn empty_list_of_texts_joins_to_the_empty_value() {
    assert_eq!(encode_texts(&Vec::new()), Vec::<u8>::new());
}

#[test]
fn texts_are_joined_by_commas_in_order() {
    let texts = vec!["COMMUNITY".to_string(), "NEWS".to_string(), "BANNER".to_string()];
    assert_eq!(encode_texts(&texts), b"COMMUNITY,NEWS,BANNER".to_vec());
}

#[test]
fn single_text_has_no_separator() {
    assert_eq!(encode_texts(&vec!["VERIFIED".to_string()]), b"VERIFIED".to_vec());
}

#[test]
fn texts_are_written_as_utf8() {
    let texts = vec!["é".to_string(), "日本".to_string()];
    assert_eq!(encode_texts(&texts), "é,日本".as_bytes().to_vec());
}

#[test]
fn push_bytes_appends_behind_what_is_there() {
    let mut out = vec![1u8, 2];
    push_bytes(&[3, 4, 5], &mut out);
    assert_eq!(out, vec![1, 2, 3, 4, 5]);
    push_bytes(&[], &mut out);
    assert_eq!(out, vec![1, 2, 3, 4, 5]);
}
