//! Custom stream protocols.

use std::rc::Rc;

use rsmpv::call::Call;
use rsmpv::stream_cb::{
    open_reply, read_len, read_reply, seek_offset, seek_reply, serve_read, serve_seek, serve_size,
    size_reply, ProtocolRegistry, SizeProbe, SizeQuery, Stream, StreamError,
};
use rsmpv::sys;
use rsmpv::sys::mpv_handle;
use rsmpv::{Error, Reply, Startup};

type Mpv = rsmpv::Mpv<(), ()>;

/// A minimal 16-bit mono PCM WAV file of silence.
fn tiny_wav() -> Vec<u8> {
    let sample_rate: u32 = 8000;
    let samples: u32 = 1600; // 0.2 s
    let data_len = samples * 2;
    let mut wav = Vec::new();
    wav.extend_from_slice(b"RIFF");
    wav.extend_from_slice(&(36 + data_len).to_le_bytes());
    wav.extend_from_slice(b"WAVEfmt ");
    wav.extend_from_slice(&16u32.to_le_bytes()); // fmt chunk size
    wav.extend_from_slice(&1u16.to_le_bytes()); // PCM
    wav.extend_from_slice(&1u16.to_le_bytes()); // mono
    wav.extend_from_slice(&sample_rate.to_le_bytes());
    wav.extend_from_slice(&(sample_rate * 2).to_le_bytes()); // byte rate
    wav.extend_from_slice(&2u16.to_le_bytes()); // block align
    wav.extend_from_slice(&16u16.to_le_bytes()); // bits per sample
    wav.extend_from_slice(b"data");
    wav.extend_from_slice(&data_len.to_le_bytes());
    wav.resize(wav.len() + data_len as usize, 0);
    wav
}

/// Bytes with a position.
struct Bytes {
    data: Vec<u8>,
    pos: u64,
}

impl Bytes {
    fn ask(&mut self, query: SizeQuery) -> Option<u64> {
        match query {
            SizeQuery::Position => {}
            SizeQuery::SeekEnd => self.pos = self.data.len() as u64,
            SizeQuery::SeekStart(pos) => self.pos = pos,
        }
        Some(self.pos)
    }
}

impl Stream for Bytes {
    fn read(&mut self, buf: &mut [u8]) -> Result<usize, StreamError> {
        let start = (self.pos as usize).min(self.data.len());
        let n = buf.len().min(self.data.len() - start);
        buf[..n].copy_from_slice(&self.data[start..start + n]);
        self.pos += n as u64;
        Ok(n)
    }

    fn seek(&mut self, offset: u64) -> Result<u64, StreamError> {
        self.pos = offset;
        Ok(offset)
    }

    fn size(&mut self) -> Option<u64> {
        let mut probe = SizeProbe::Start;
        while let Some(query) = probe.query() {
            probe = probe.resume(self.ask(query));
        }
        match probe {
            SizeProbe::Done(size) => size,
            _ => unreachable!(),
        }
    }
}

/// Read a stream the way mpv does: probe, then read to the end.
fn play(stream: &mut impl Stream) -> Vec<u8> {
    let mut played = Vec::new();
    let mut buf = [0u8; 1000];
    loop {
        match serve_read(stream, &mut buf) {
            0 => return played,
            n => {
                assert!(0 < n && n <= buf.len() as i64);
                played.extend_from_slice(&buf[..n as usize]);
            }
        }
    }
}

fn player() -> Mpv {
    let start = Mpv::new().resume(Reply::Handle(mpv_handle { addr: 16 }));
    match start.resume(Reply::Code(0)) {
        Startup::Running(mpv) => mpv,
        other => panic!("{other:?}"),
    }
}

#[test]
fn custom_stream_protocol_plays_to_eof() {
    let mpv = player();
    match mpv.register_protocol("rsmpvtest").unwrap() {
        Call::StreamCbAddRo { ctx, protocol } => {
            assert_eq!(ctx, mpv_handle { addr: 16 });
            assert_eq!(protocol.to_bytes(), b"rsmpvtest");
        }
        _ => unreachable!(),
    }
    let mut registry = ProtocolRegistry::new();
    assert_eq!(registry.registered("open", 0), Ok(()));

    // Registering the same protocol again fails.
    let dup = registry.registered("again", sys::MPV_ERROR_INVALID_PARAMETER);
    assert_eq!(dup.unwrap_err(), Error::InvalidParameter);

    let mut stream = Bytes { data: tiny_wav(), pos: 0 };
    assert_eq!(serve_seek(&mut stream, 0), 0);
    assert_eq!(serve_size(&mut stream), 3244);
    assert_eq!(stream.pos, 0);
    assert_eq!(play(&mut stream), tiny_wav());
}

#[test]
fn overreporting_stream_is_clamped() {
    struct Liar(Bytes);
    impl Stream for Liar {
        fn read(&mut self, buf: &mut [u8]) -> Result<usize, StreamError> {
            let n = self.0.read(buf)?;
            Ok(if n == 0 { 0 } else { usize::MAX })
        }
    }

    let mut stream = Liar(Bytes { data: tiny_wav(), pos: 0 });
    let played = play(&mut stream);
    // Every read but the last fills the buffer, and the last one claims to.
    assert_eq!(played.len(), 4000);
    assert_eq!(serve_seek(&mut stream, 0), sys::MPV_ERROR_UNSUPPORTED as i64);
    assert_eq!(serve_size(&mut stream), sys::MPV_ERROR_UNSUPPORTED as i64);
}

#[test]
fn protocol_registration_survives_client_churn() {
    let open = Rc::new(());
    let mpv = player();
    let mut registry = ProtocolRegistry::new();
    registry.registered(Rc::clone(&open), 0).unwrap();
    for addr in [32, 48, 64] {
        let client = mpv.client_created(mpv_handle { addr }).unwrap();
        drop(client);
    }
    assert_eq!(Rc::strong_count(&open), 2);
    // A failed registration keeps nothing.
    let other = Rc::new(());
    registry.registered(Rc::clone(&other), sys::MPV_ERROR_NOMEM).unwrap_err();
    assert_eq!(Rc::strong_count(&other), 1);
    drop(registry);
    assert_eq!(Rc::strong_count(&open), 1);
}

#[test]
fn a_protocol_name_with_a_nul_is_refused() {
    assert!(matches!(player().register_protocol("a\0b"), Err(Error::InteriorNul)));
}

#[test]
fn read_replies() {
    assert_eq!(read_len(0), 0);
    assert_eq!(read_len(4096), 4096);
    assert_eq!(read_len(u64::MAX), isize::MAX as usize);
    assert_eq!(read_reply(Some(Ok(3)), 10), 3);
    assert_eq!(read_reply(Some(Ok(11)), 10), 10);
    assert_eq!(read_reply(Some(Ok(0)), 10), 0);
    assert_eq!(read_reply(Some(Err(StreamError::Failed)), 10), -1);
    assert_eq!(read_reply(None, 10), -1);
}

#[test]
fn seek_replies() {
    assert_eq!(seek_offset(5), Some(5));
    assert_eq!(seek_offset(-1), None);
    assert_eq!(seek_reply(Some(Ok(5))), 5);
    assert_eq!(seek_reply(Some(Ok(i64::MAX as u64))), i64::MAX);
    assert_eq!(seek_reply(Some(Ok(1 << 63))), -20);
    assert_eq!(seek_reply(Some(Err(StreamError::Unsupported))), -18);
    assert_eq!(seek_reply(Some(Err(StreamError::Failed))), -20);
    assert_eq!(seek_reply(None), -20);
    let mut stream = Bytes { data: Vec::new(), pos: 7 };
    assert_eq!(serve_seek(&mut stream, -1), -20);
    assert_eq!(stream.pos, 7);
}

#[test]
fn size_replies() {
    assert_eq!(size_reply(Some(Some(12))), 12);
    assert_eq!(size_reply(Some(Some(u64::MAX))), -18);
    assert_eq!(size_reply(Some(None)), -18);
    assert_eq!(size_reply(None), -18);
}

#[test]
fn open_replies() {
    assert_eq!(open_reply(Some(Ok(()))), 0);
    assert_eq!(open_reply(Some(Err(Error::Unsupported))), sys::MPV_ERROR_LOADING_FAILED);
    assert_eq!(open_reply(None), sys::MPV_ERROR_LOADING_FAILED);
}

#[test]
fn a_size_probe_fails_with_its_source() {
    assert_eq!(SizeProbe::Start.resume(None), SizeProbe::Done(None));
    let at = SizeProbe::Start.resume(Some(4));
    assert_eq!(at.resume(None), SizeProbe::Done(None));
    let end = at.resume(Some(9));
    assert_eq!(end.query(), Some(SizeQuery::SeekStart(4)));
    assert_eq!(end.resume(None), SizeProbe::Done(None));
    assert_eq!(end.resume(Some(4)), SizeProbe::Done(Some(9)));
    assert_eq!(SizeProbe::Done(Some(9)).query(), None);
}
