use etcd_client::rpc::key_range::KeyRange;

fn built(f: impl FnOnce(&mut KeyRange)) -> (Vec<u8>, Vec<u8>) {
    let mut range = KeyRange::new();
    f(&mut range);
    range.build()
}

#[test]
fn a_key_alone_has_no_end() {
    assert_eq!(built(|r| r.with_key(b"k".to_vec())), (b"k".to_vec(), vec![]));
    assert_eq!(built(|_| ()), (vec![], vec![]));
}

#[test]
fn a_range_ends_where_it_says() {
    let range = built(|r| {
        r.with_key(b"a".to_vec());
        r.with_range(b"d".to_vec());
    });
    assert_eq!(range, (b"a".to_vec(), b"d".to_vec()));
}

#[test]
fn a_prefix_ends_at_the_next_sibling() {
    let prefix = |key: &[u8]| {
        built(|r| {
            r.with_key(key.to_vec());
            r.with_prefix();
        })
    };
    assert_eq!(prefix(b"ab"), (b"ab".to_vec(), b"ac".to_vec()));
    assert_eq!(prefix(&[1, 255]), (vec![1, 255], vec![2]));
    assert_eq!(prefix(&[7, 255, 255]), (vec![7, 255, 255], vec![8]));
    assert_eq!(prefix(&[255, 255]), (vec![255, 255], vec![0]));
    assert_eq!(prefix(b""), (vec![0], vec![0]));
}

#[test]
fn from_key_and_all_keys_are_unbounded() {
    let from = built(|r| {
        r.with_key(b"m".to_vec());
        r.with_from_key();
    });
    assert_eq!(from, (b"m".to_vec(), vec![0]));
    assert_eq!(built(|r| r.with_from_key()), (vec![0], vec![0]));
    let all = built(|r| {
        r.with_key(b"m".to_vec());
        r.with_all_keys();
    });
    assert_eq!(all, (vec![0], vec![0]));
}

#[test]
fn the_last_extent_counts() {
    let range = built(|r| {
        r.with_key(b"a".to_vec());
        r.with_all_keys();
        r.with_prefix();
    });
    assert_eq!(range, (b"a".to_vec(), b"b".to_vec()));
}

fn covers(range: &(Vec<u8>, Vec<u8>), key: &[u8]) -> bool {
    let (from, to) = range;
    if to.is_empty() {
        key == from.as_slice()
    } else {
        key >= from.as_slice() && (to == &[0] || key < to.as_slice())
    }
}

#[test]
fn a_prefix_covers_exactly_the_keys_that_begin_with_it() {
    for prefix in [&b"ab"[..], &[1, 255], &[255, 255], b""] {
        let range = built(|r| {
            r.with_key(prefix.to_vec());
            r.with_prefix();
        });
        for key in [
            &b"a"[..],
            b"ab",
            b"abz",
            b"ac",
            &[1],
            &[1, 254, 9],
            &[1, 255, 0],
            &[2],
            &[255],
            &[255, 255],
            &[255, 255, 7],
        ] {
            assert_eq!(covers(&range, key), key.starts_with(prefix));
        }
    }
}

#[test]
fn from_key_covers_exactly_the_keys_not_below_it() {
    let range = built(|r| {
        r.with_key(b"m".to_vec());
        r.with_from_key();
    });
    for key in [&b"a"[..], b"lz", b"m", b"ma", b"z"] {
        assert_eq!(covers(&range, key), key >= &b"m"[..]);
    }
}
