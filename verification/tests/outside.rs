use netlink_packet_utils::nla::{DefaultNla, Nla, NlasIterator};
use netlink_packet_utils::{Emitable, Parseable};
use taprio_codec::{
    buffer_len, emit, emit_list, list_buffer_len, parse_list, Field, TaprioScheduleEntry,
    TaprioTcEntry, TcQdiscTaprioOption,
};

/// A small generator of numbers that look random and are the same on every
/// run.
struct Numbers(u64);

impl Numbers {
    fn next(&mut self) -> u64 {
        self.0 = self.0.wrapping_mul(6364136223846793005).wrapping_add(1442695040888963407);
        self.0 >> 33
    }

    fn below(&mut self, n: u64) -> u64 {
        self.next() % n
    }
}

/// What the outside crate reads from a list, each attribute kept under its
/// kind; `None` where it fails.
fn walked(stream: &[u8]) -> Option<Vec<DefaultNla>> {
    let mut list = vec![];
    for nla in NlasIterator::new(stream) {
        list.push(DefaultNla::parse(&nla.ok()?).ok()?);
    }
    Some(list)
}

fn as_default(entry: &TaprioTcEntry) -> DefaultNla {
    match entry {
        TaprioTcEntry::Other(nla) => nla.clone(),
        _ => panic!("a known kind"),
    }
}

#[test]
fn unknown_attributes_are_written_as_the_outside_crate_writes_them() {
    // With both flags in a kind the outside crate writes only one of them;
    // those kinds are left out here and kept whole by this codec.
    for kind in [0u16, 4, 100, 0x3fff, 0x4004, 0x8004, 0xbfff] {
        for len in 0..9usize {
            let value: Vec<u8> = (0..len).map(|i| 0x10 + i as u8).collect();
            let nla = DefaultNla::new(kind, value.clone());
            let mut expected = vec![0xaa; nla.buffer_len()];
            nla.emit(&mut expected);

            let entry = TaprioTcEntry::Other(DefaultNla::new(kind, value));
            assert_eq!(buffer_len(&entry), nla.buffer_len());
            let mut bytes = vec![0xaa; buffer_len(&entry)];
            emit(&entry, &mut bytes);
            assert_eq!(bytes, expected);
        }
    }
}

#[test]
fn a_list_is_walked_as_the_outside_crate_walks_it() {
    let streams: Vec<Vec<u8>> = vec![
        vec![],
        vec![0x04, 0, 0x07, 0],
        vec![0x05, 0, 0x07, 0x80, 9],
        vec![0x05, 0, 0x07, 0x40, 9, 1, 2, 3, 0x06, 0, 0x08, 0xc0, 1, 2],
        vec![0x07, 0, 0x64, 0, 1, 2, 3, 0xff, 0x04, 0, 0x65, 0],
        vec![0x08, 0, 0x64, 0, 1, 2, 3, 4, 0x04, 0, 0x65, 0, 0x04, 0, 0x66, 0],
    ];
    for stream in streams {
        let mut expected = vec![];
        for nla in NlasIterator::new(&stream) {
            let nla = nla.unwrap();
            expected.push(TaprioTcEntry::Other(DefaultNla::parse(&nla).unwrap()));
        }
        let parsed = parse_list::<TaprioTcEntry>(&stream, Field::Tc).unwrap();
        assert_eq!(parsed, expected);
        for (mine, theirs) in parsed.iter().zip(expected.iter()) {
            assert_eq!(as_default(mine).kind(), as_default(theirs).kind());
            assert_eq!(as_default(mine).value_len(), as_default(theirs).value_len());
        }
    }
}

#[test]
fn a_list_fails_where_the_outside_crate_fails() {
    let streams: Vec<Vec<u8>> = vec![
        vec![0x04],
        vec![0x04, 0, 0x07],
        vec![0x03, 0, 0x07, 0],
        vec![0x00, 0, 0x07, 0],
        vec![0x05, 0, 0x07, 0],
        vec![0x04, 0, 0x07, 0, 0x09, 0, 0x08, 0, 1, 2, 3, 4],
        vec![0x05, 0, 0x07, 0, 9, 0, 0, 0, 0x04, 0],
    ];
    for stream in streams {
        assert!(NlasIterator::new(&stream).any(|nla| nla.is_err()));
        assert!(parse_list::<TcQdiscTaprioOption>(&stream, Field::Options).is_err());
    }
}

#[test]
fn lists_made_at_random_are_walked_as_the_outside_crate_walks_them() {
    let mut numbers = Numbers(0x5eed);
    let mut read = 0;
    let mut failed = 0;
    for _ in 0..4000 {
        let mut stream: Vec<u8> = vec![];
        for _ in 0..numbers.below(5) {
            let len = numbers.below(11) as usize;
            // A kind that names no schedule entry, with or without flags.
            let kind = (2 + numbers.below(0x3ffe) as u16) | ((numbers.below(4) as u16) << 14);
            stream.extend_from_slice(&((len + 4) as u16).to_ne_bytes());
            stream.extend_from_slice(&kind.to_ne_bytes());
            for _ in 0..(len + 3) / 4 * 4 {
                stream.push(numbers.below(256) as u8);
            }
        }
        match numbers.below(4) {
            0 => {
                let cut = numbers.below(stream.len() as u64 + 1) as usize;
                stream.truncate(cut);
            }
            1 if !stream.is_empty() => {
                let at = numbers.below(stream.len() as u64) as usize;
                stream[at] = numbers.below(256) as u8;
            }
            _ => {}
        }
        let theirs = walked(&stream);
        if let Some(list) = &theirs {
            if list.iter().any(|nla| nla.kind() & 0x7fff == 1) {
                continue;
            }
        }
        let mine = parse_list::<TaprioScheduleEntry>(&stream, Field::Schedule);
        match theirs {
            Some(list) => {
                let expected: Vec<_> = list.into_iter().map(TaprioScheduleEntry::Other).collect();
                assert_eq!(mine, Ok(expected), "{:?}", stream);
                read += 1;
            }
            None => {
                assert!(mine.is_err(), "{:?}", stream);
                failed += 1;
            }
        }
    }
    assert!(read > 1000);
    assert!(failed > 100);
}

#[test]
fn lists_made_at_random_are_written_as_the_outside_crate_writes_them() {
    let mut numbers = Numbers(0xfeed);
    for _ in 0..1000 {
        let mut theirs: Vec<DefaultNla> = vec![];
        let mut mine: Vec<TaprioTcEntry> = vec![];
        for _ in 0..numbers.below(6) {
            let value: Vec<u8> =
                (0..numbers.below(13)).map(|_| numbers.below(256) as u8).collect();
            // At most one flag: with both the outside crate drops one.
            let flag = [0u16, 0x4000, 0x8000][numbers.below(3) as usize];
            let kind = (4 + numbers.below(0x3ffc) as u16) | flag;
            theirs.push(DefaultNla::new(kind, value.clone()));
            mine.push(TaprioTcEntry::Other(DefaultNla::new(kind, value)));
        }
        let len = theirs.as_slice().buffer_len();
        assert_eq!(list_buffer_len(mine.as_slice()), len);
        let mut expected = vec![0xaa; len + 2];
        theirs.as_slice().emit(&mut expected);
        let mut bytes = vec![0xaa; len + 2];
        emit_list(mine.as_slice(), &mut bytes);
        assert_eq!(bytes, expected);
        assert_eq!(parse_list::<TaprioTcEntry>(&bytes[..len], Field::Tc), Ok(mine));
    }
}
