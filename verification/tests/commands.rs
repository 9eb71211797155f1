use vios_client::client::VioSClient;
use vios_client::client::check_cmd_status;
use vios_client::constants::CHMAP_INFO_SIZE;
use vios_client::constants::JACK_INFO_SIZE;
use vios_client::constants::PCM_INFO_SIZE;
use vios_client::constants::QUERY_INFO_SIZE;
use vios_client::constants::VIRTIO_SND_D_INPUT;
use vios_client::constants::VIRTIO_SND_D_OUTPUT;
use vios_client::constants::VIRTIO_SND_R_CHMAP_INFO;
use vios_client::constants::VIRTIO_SND_R_JACK_INFO;
use vios_client::constants::VIRTIO_SND_R_JACK_REMAP;
use vios_client::constants::VIRTIO_SND_R_PCM_INFO;
use vios_client::constants::VIRTIO_SND_R_PCM_PREPARE;
use vios_client::constants::VIRTIO_SND_R_PCM_RELEASE;
use vios_client::constants::VIRTIO_SND_R_PCM_SET_PARAMS;
use vios_client::constants::VIRTIO_SND_R_PCM_START;
use vios_client::constants::VIRTIO_SND_R_PCM_STOP;
use vios_client::constants::VIRTIO_SND_S_OK;
use vios_client::errors::Error;
use vios_client::errors::ProtocolErrorKind;
use vios_client::handshake::VioSConfig;
use vios_client::layout::virtio_snd_chmap_info;
use vios_client::layout::virtio_snd_info;
use vios_client::layout::virtio_snd_jack_info;
use vios_client::layout::virtio_snd_pcm_info;
use vios_client::stream_info::VioSStreamInfo;
use vios_client::stream_info::VioSStreamParams;

fn client_with(jacks: u32, streams: u32, chmaps: u32) -> VioSClient {
    let cfg = VioSConfig { version: 1, jacks, streams, chmaps };
    VioSClient::new(cfg, 4096, 4096)
}

fn pcm_record(direction: u8) -> virtio_snd_pcm_info {
    virtio_snd_pcm_info {
        hdr: virtio_snd_info { hda_fn_nid: 3 },
        features: 5,
        formats: 0x40,
        rates: 0x200,
        direction,
        channels_min: 1,
        channels_max: 2,
    }
}

fn jack_record(nid: u32) -> virtio_snd_jack_info {
    virtio_snd_jack_info {
        hdr: virtio_snd_info { hda_fn_nid: nid },
        features: 1,
        hda_reg_defconf: 2,
        hda_reg_caps: 3,
        connected: 1,
    }
}

fn chmap_record() -> virtio_snd_chmap_info {
    virtio_snd_chmap_info {
        hdr: virtio_snd_info { hda_fn_nid: 8 },
        direction: VIRTIO_SND_D_OUTPUT,
        channels: 2,
        positions: [0u8; 18],
    }
}

#[test]
fn counts_come_from_config() {
    let c = client_with(2, 3, 4);
    assert_eq!(c.num_jacks(), 2);
    assert_eq!(c.num_streams(), 3);
    assert_eq!(c.num_chmaps(), 4);
}

#[test]
fn queries_carry_exact_fields() {
    let c = client_with(2, 3, 4);
    let q = c.jack_info_query().unwrap();
    assert_eq!(q.hdr.code, VIRTIO_SND_R_JACK_INFO);
    assert_eq!(q.start_id, 0);
    assert_eq!(q.count, 2);
    assert_eq!(q.size, QUERY_INFO_SIZE as u32);
    let q = c.stream_info_query().unwrap();
    assert_eq!(q.hdr.code, VIRTIO_SND_R_PCM_INFO);
    assert_eq!(q.count, 3);
    let q = c.chmap_info_query().unwrap();
    assert_eq!(q.hdr.code, VIRTIO_SND_R_CHMAP_INFO);
    assert_eq!(q.count, 4);
}

#[test]
fn queries_skip_empty_tables() {
    let c = client_with(0, 0, 0);
    assert!(c.jack_info_query().is_none());
    assert!(c.stream_info_query().is_none());
    assert!(c.chmap_info_query().is_none());
}

#[test]
fn cache_jacks_accepts_exact_reply() {
    let mut c = client_with(2, 0, 0);
    let records = vec![jack_record(7), jack_record(9)];
    let r = c.cache_jacks_info(2 * JACK_INFO_SIZE, records.clone());
    assert_eq!(r, Ok(()));
    assert_eq!(c.jack_info(0), Some(records[0]));
    assert_eq!(c.jack_info(1), Some(records[1]));
    assert_eq!(c.jack_info(2), None);
}

#[test]
fn cache_jacks_rejects_wrong_reply_size() {
    let mut c = client_with(2, 0, 0);
    let records = vec![jack_record(7)];
    let r = c.cache_jacks_info(JACK_INFO_SIZE, records);
    assert_eq!(
        r,
        Err(Error::ProtocolError(ProtocolErrorKind::UnexpectedMessageSize(
            2 * JACK_INFO_SIZE,
            JACK_INFO_SIZE,
        )))
    );
    assert_eq!(c.jack_info(0), None);
}

#[test]
fn cache_streams_assigns_local_indices() {
    let mut c = client_with(0, 2, 0);
    let records = vec![pcm_record(VIRTIO_SND_D_OUTPUT), pcm_record(VIRTIO_SND_D_INPUT)];
    let r = c.cache_streams_info(2 * PCM_INFO_SIZE, records.clone());
    assert_eq!(r, Ok(()));
    let s0 = VioSStreamInfo::new(0, &records[0]);
    assert_eq!(s0.id, 0);
    assert_eq!(s0.direction, VIRTIO_SND_D_OUTPUT);
    // The getter hands the capability record back out.
    assert_eq!(c.stream_info(0), Some(records[0]));
    assert_eq!(c.stream_info(1), Some(records[1]));
    assert_eq!(c.stream_info(2), None);
}

#[test]
fn cache_streams_rejects_wrong_reply_size() {
    let mut c = client_with(0, 2, 0);
    let records = vec![pcm_record(VIRTIO_SND_D_OUTPUT); 3];
    let r = c.cache_streams_info(3 * PCM_INFO_SIZE, records);
    assert_eq!(
        r,
        Err(Error::ProtocolError(ProtocolErrorKind::UnexpectedMessageSize(
            2 * PCM_INFO_SIZE,
            3 * PCM_INFO_SIZE,
        )))
    );
    assert_eq!(c.stream_info(0), None);
}

#[test]
fn cache_chmaps_roundtrip() {
    let mut c = client_with(0, 0, 1);
    let records = vec![chmap_record()];
    assert_eq!(c.cache_chmaps_info(CHMAP_INFO_SIZE, records.clone()), Ok(()));
    assert_eq!(c.chmap_info(0), Some(records[0]));
    assert_eq!(c.chmap_info(1), None);
    let bad = c.cache_chmaps_info(CHMAP_INFO_SIZE + 1, vec![]);
    assert!(bad.is_err());
}

#[test]
fn stream_description_conversion_roundtrip() {
    let rec = pcm_record(VIRTIO_SND_D_INPUT);
    let info = VioSStreamInfo::new(5, &rec);
    assert_eq!(info.id, 5);
    assert_eq!(info.hda_fn_nid, 3);
    assert_eq!(info.to_pcm_info(), rec);
}

#[test]
fn remap_jack_builds_command() {
    let c = client_with(2, 0, 0);
    let msg = c.remap_jack(1, 10, 20).unwrap();
    assert_eq!(msg.hdr.hdr.code, VIRTIO_SND_R_JACK_REMAP);
    assert_eq!(msg.hdr.jack_id, 1);
    assert_eq!(msg.association, 10);
    assert_eq!(msg.sequence, 20);
}

#[test]
fn remap_jack_rejects_unknown_jack() {
    let c = client_with(2, 0, 0);
    assert_eq!(c.remap_jack(2, 0, 0), Err(Error::InvalidJackId(2)));
    assert_eq!(c.remap_jack(u32::MAX, 0, 0), Err(Error::InvalidJackId(u32::MAX)));
}

#[test]
fn set_stream_parameters_builds_command() {
    let mut c = client_with(0, 1, 0);
    c.cache_streams_info(PCM_INFO_SIZE, vec![pcm_record(VIRTIO_SND_D_OUTPUT)])
        .unwrap();
    let params = VioSStreamParams {
        buffer_bytes: 8192,
        period_bytes: 1024,
        features: 0,
        channels: 2,
        format: 4,
        rate: 7,
    };
    let msg = c.set_stream_parameters(0, params).unwrap();
    assert_eq!(msg.hdr.hdr.code, VIRTIO_SND_R_PCM_SET_PARAMS);
    assert_eq!(msg.hdr.stream_id, 0);
    assert_eq!(msg.buffer_bytes, 8192);
    assert_eq!(msg.period_bytes, 1024);
    assert_eq!(msg.channels, 2);
    assert_eq!(msg.format, 4);
    assert_eq!(msg.rate, 7);
    assert_eq!(msg.padding, 0);
    // The raw variant passes a caller-built command through unchanged.
    assert_eq!(c.set_stream_parameters_raw(msg), Ok(msg));
    assert_eq!(c.set_stream_parameters(1, params), Err(Error::InvalidStreamId(1)));
    let mut stray = msg;
    stray.hdr.stream_id = 3;
    assert_eq!(c.set_stream_parameters_raw(stray), Err(Error::InvalidStreamId(3)));
}

#[test]
fn stream_ops_build_commands() {
    let mut c = client_with(0, 1, 0);
    c.cache_streams_info(PCM_INFO_SIZE, vec![pcm_record(VIRTIO_SND_D_OUTPUT)])
        .unwrap();
    assert_eq!(c.prepare_stream(0).unwrap().hdr.code, VIRTIO_SND_R_PCM_PREPARE);
    assert_eq!(c.release_stream(0).unwrap().hdr.code, VIRTIO_SND_R_PCM_RELEASE);
    assert_eq!(c.start_stream(0).unwrap().hdr.code, VIRTIO_SND_R_PCM_START);
    assert_eq!(c.stop_stream(0).unwrap().hdr.code, VIRTIO_SND_R_PCM_STOP);
    assert_eq!(c.start_stream(0).unwrap().stream_id, 0);
    assert_eq!(c.prepare_stream(9), Err(Error::InvalidStreamId(9)));
}

#[test]
fn cmd_status_interpretation() {
    // Zero is the success value; any nonzero status is the server's failure
    // code, carried back verbatim.
    assert_eq!(check_cmd_status(VIRTIO_SND_S_OK), Ok(()));
    assert_eq!(check_cmd_status(0), Ok(()));
    assert_eq!(check_cmd_status(1), Err(Error::CommandFailed(1)));
    assert_eq!(check_cmd_status(0x8001), Err(Error::CommandFailed(0x8001)));
}
