use codec_bench::codec::compress;
use codec_bench::codec::decompress;
use codec_bench::codec::settle;
use codec_bench::codec::Codec;
use codec_bench::codec::Quality;
use codec_bench::CodecError;

fn sample() -> Vec<u8> {
    let mut data: Vec<u8> = Vec::new();
    for i in 0..400u32 {
        data.extend_from_slice(b"{\"firstname\":\"Ada\",\"lastname\":\"Lovelace\",\"n\":");
        data.extend_from_slice(format!("{}", i).as_bytes());
        data.push(b'}');
    }
    data
}

fn codecs() -> Vec<Codec> {
    vec![Codec::Brotli, Codec::Gzip, Codec::Zlib, Codec::Deflate]
}

fn qualities() -> Vec<Quality> {
    vec![Quality::Fast, Quality::Best]
}

#[test]
fn quality_levels() {
    assert_eq!(Quality::Fast.level(), 1);
    assert_eq!(Quality::Best.level(), 9);
}

#[test]
fn round_trip_brotli() {
    let data = sample();
    for quality in qualities() {
        let stream = compress(Codec::Brotli, quality, &data).unwrap();
        assert_eq!(decompress(Codec::Brotli, &stream).unwrap(), data);
    }
}

#[test]
fn round_trip_gzip() {
    let data = sample();
    for quality in qualities() {
        let stream = compress(Codec::Gzip, quality, &data).unwrap();
        assert_eq!(decompress(Codec::Gzip, &stream).unwrap(), data);
    }
}

#[test]
fn round_trip_zlib() {
    let data = sample();
    for quality in qualities() {
        let stream = compress(Codec::Zlib, quality, &data).unwrap();
        assert_eq!(decompress(Codec::Zlib, &stream).unwrap(), data);
    }
}

#[test]
fn round_trip_deflate() {
    let data = sample();
    for quality in qualities() {
        let stream = compress(Codec::Deflate, quality, &data).unwrap();
        assert_eq!(decompress(Codec::Deflate, &stream).unwrap(), data);
    }
}

#[test]
fn round_trip_of_an_empty_record() {
    let data: Vec<u8> = Vec::new();
    for codec in codecs() {
        for quality in qualities() {
            let stream = compress(codec, quality, &data).unwrap();
            assert!(!stream.is_empty());
            assert_eq!(decompress(codec, &stream).unwrap(), data);
        }
    }
}

#[test]
fn round_trip_of_every_byte_value() {
    let data: Vec<u8> = (0..=255u8).collect();
    for codec in codecs() {
        for quality in qualities() {
            let stream = compress(codec, quality, &data).unwrap();
            assert_eq!(decompress(codec, &stream).unwrap(), data);
        }
    }
}

#[test]
fn compress_shrinks_repetitive_data() {
    let data = sample();
    for codec in codecs() {
        for quality in qualities() {
            let stream = compress(codec, quality, &data).unwrap();
            assert!(stream.len() < data.len() / 4);
            assert_ne!(stream, data);
        }
    }
}

#[test]
fn compress_gives_the_same_stream_each_time() {
    let data = sample();
    for codec in codecs() {
        for quality in qualities() {
            let first = compress(codec, quality, &data).unwrap();
            let second = compress(codec, quality, &data).unwrap();
            assert_eq!(first, second);
        }
    }
}

#[test]
fn best_is_no_larger_than_fast_on_repetitive_data() {
    let data = sample();
    for codec in codecs() {
        let fast = compress(codec, Quality::Fast, &data).unwrap();
        let best = compress(codec, Quality::Best, &data).unwrap();
        assert!(best.len() <= fast.len());
    }
}

#[test]
fn gzip_stream_starts_with_the_gzip_magic() {
    let stream = compress(Codec::Gzip, Quality::Best, &sample()).unwrap();
    assert_eq!(stream[0], 0x1f);
    assert_eq!(stream[1], 0x8b);
    assert_eq!(stream[2], 8);
}

#[test]
fn zlib_stream_starts_with_the_deflate_method() {
    let stream = compress(Codec::Zlib, Quality::Best, &sample()).unwrap();
    assert_eq!(stream[0] & 0x0f, 8);
    assert_eq!(((stream[0] as u16) * 256 + stream[1] as u16) % 31, 0);
}

#[test]
fn gzip_wraps_the_deflate_stream() {
    let data = sample();
    let raw = compress(Codec::Deflate, Quality::Best, &data).unwrap();
    let gzip = compress(Codec::Gzip, Quality::Best, &data).unwrap();
    assert_eq!(gzip.len(), raw.len() + 18);
    assert_eq!(&gzip[10..gzip.len() - 8], &raw[..]);
}

#[test]
fn decompress_refuses_what_is_no_stream() {
    let garbage: Vec<u8> = vec![0xde, 0xad, 0xbe, 0xef, 0x01, 0x02, 0x03, 0x04, 0x05];
    assert_eq!(decompress(Codec::Gzip, &garbage), Err(CodecError::Decompress));
    assert_eq!(decompress(Codec::Zlib, &garbage), Err(CodecError::Decompress));
    assert_eq!(decompress(Codec::Brotli, &garbage), Err(CodecError::Decompress));
}

#[test]
fn decompress_refuses_a_stream_cut_short() {
    let data = sample();
    for codec in codecs() {
        let mut stream = compress(codec, Quality::Best, &data).unwrap();
        stream.truncate(stream.len() / 2);
        assert_eq!(decompress(codec, &stream), Err(CodecError::Decompress));
    }
}

#[test]
fn decompress_of_one_codec_refuses_the_stream_of_another() {
    let stream = compress(Codec::Brotli, Quality::Best, &sample()).unwrap();
    assert_eq!(decompress(Codec::Gzip, &stream), Err(CodecError::Decompress));
}

#[test]
fn settle_keeps_the_bytes() {
    assert_eq!(settle(Ok(vec![1, 2, 3]), CodecError::Compress), Ok(vec![1, 2, 3]));
    assert_eq!(settle(Ok(Vec::new()), CodecError::Decompress), Ok(Vec::new()));
}

#[test]
fn settle_reports_the_named_failure() {
    let failure = std::io::Error::new(std::io::ErrorKind::InvalidInput, "corrupt");
    assert_eq!(settle(Err(failure), CodecError::Compress), Err(CodecError::Compress));
    let failure = std::io::Error::new(std::io::ErrorKind::UnexpectedEof, "short");
    assert_eq!(settle(Err(failure), CodecError::Decompress), Err(CodecError::Decompress));
}
