use media_proxy::download::{DownloadedFile, Downloader};
use media_proxy::encode::BytesAndMime;
use media_proxy::fetch::{FetchAction, FileDownloadError, RequestKind};
use media_proxy::handler::{check_request, download_image, filename_for, proxy_image};
use media_proxy::options::parse_options;
use media_proxy::quarantine::QuarantineSet;

// What an origin answers: a status, a declared length, a content type and
// the body in chunks.
struct Origin {
    status: u16,
    declared_length: Option<u64>,
    content_type: Option<&'static str>,
    chunks: Vec<Vec<u8>>,
}

// Drives a download against an origin that answers every request alike.
fn fetch(
    downloader: &Downloader,
    url: &str,
    origin: &Origin,
) -> Result<DownloadedFile, FileDownloadError> {
    let mut quarantine = QuarantineSet::new();
    let (mut download, mut action) = downloader.begin(url, &quarantine)?;
    let mut next_chunk = 0;
    loop {
        action = match action {
            FetchAction::Send(RequestKind::Default) | FetchAction::Send(RequestKind::Caller) => {
                download.on_response(&mut quarantine, origin.status, origin.declared_length)
            }
            FetchAction::ReadBody => {
                if next_chunk < origin.chunks.len() {
                    next_chunk += 1;
                    download.on_chunk(&origin.chunks[next_chunk - 1])
                } else {
                    download.on_end()
                }
            }
            FetchAction::Complete => {
                let content_type = origin.content_type.map(|s| s.to_string());
                return download
                    .finish(content_type, filename_for(url, None))
                    .ok_or(FileDownloadError::RequestError);
            }
            FetchAction::Fail(e) => return Err(e),
        };
    }
}

fn encoded(width: u32, height: u32, format: image::ImageFormat) -> Vec<u8> {
    let mut bytes: Vec<u8> = Vec::new();
    image::DynamicImage::ImageRgba8(image::RgbaImage::new(width, height))
        .write_to(&mut std::io::Cursor::new(&mut bytes), format)
        .unwrap();
    bytes
}

fn origin_of(bytes: Vec<u8>, content_type: &'static str) -> Origin {
    Origin {
        status: 200,
        declared_length: Some(bytes.len() as u64),
        content_type: Some(content_type),
        chunks: bytes.chunks(16).map(|c| c.to_vec()).collect(),
    }
}

fn process(url: &str, origin: &Origin) -> Result<BytesAndMime, ()> {
    let downloader = Downloader::new(None);
    let names = vec!["emoji".to_string(), "url".to_string()];
    let url = url.to_string();
    assert!(check_request(Some(&url), Some("MediaProxyRS@Debug")).is_ok());
    let fetched = fetch(&downloader, &url, origin);
    let downloaded = download_image(&url, fetched);
    let options = parse_options("image.webp", &names);
    match proxy_image(downloaded, &options, true) {
        Ok(image) => Ok(image.content),
        Err(_) => Err(()),
    }
}

#[test]
fn downloader_test_download_file() {
    let downloader = Downloader::new(None); // use default size limit
    let file = fetch(
        &downloader,
        "https://sh.nfs.pub/nyaone/ff02042e-524e-48e8-bb27-17621d96b13a.png",
        &origin_of(encoded(32, 32, image::ImageFormat::Png), "image/png"),
    );
    assert!(file.is_ok());
    if let Ok(DownloadedFile(bytes, ct, name)) = file {
        assert!(bytes.len() > 0);
        assert_eq!(ct, Some("image/png".to_string()));
        assert_eq!(name, b"ff02042e-524e-48e8-bb27-17621d96b13a.png".to_vec());
    }
}

#[test]
fn download_file_test_download_file() {
    let downloader = Downloader::new(None);
    // no length declared: the body is counted as it arrives
    let mut origin = origin_of(encoded(32, 32, image::ImageFormat::Png), "image/png");
    origin.declared_length = None;
    let file = fetch(
        &downloader,
        "https://sh.nfs.pub/nyaone/ff02042e-524e-48e8-bb27-17621d96b13a.png",
        &origin,
    );
    assert!(file.is_ok());
    if let Ok(DownloadedFile(bytes, ct, _)) = file {
        assert!(bytes.len() > 0);
        assert_eq!(bytes, encoded(32, 32, image::ImageFormat::Png));
        assert_eq!(ct, Some("image/png".to_string()))
    }
}

#[test]
fn test_size_limit() {
    let downloader = Downloader::new(Some(6));
    let mut origin = origin_of(encoded(32, 32, image::ImageFormat::Png), "image/png");
    origin.declared_length = None;
    match fetch(
        &downloader,
        "https://sh.nfs.pub/nyaone/ff02042e-524e-48e8-bb27-17621d96b13a.png",
        &origin,
    ) {
        Err(FileDownloadError::Oversize) => (),
        _ => panic!("Wrong status"),
    };
}

#[test]
fn test_process_webp() {
    let file = process(
        "https://sh.nfs.pub/nyaone/7006d5af-fe08-4f50-93ef-0aabd1ec155b.webp",
        &origin_of(encoded(200, 150, image::ImageFormat::WebP), "image/webp"),
    );
    assert!(file.is_ok());
    if let Ok(BytesAndMime(bytes, ct)) = file {
        assert!(bytes.len() > 0);
        assert_eq!(ct, "image/webp".to_string())
    }
}

#[test]
fn test_process_gif() {
    let file = process(
        "https://sh.nfs.pub/nyaone/d35b447f-0bfe-4383-97a2-c878557efd90.gif",
        &origin_of(encoded(200, 150, image::ImageFormat::Gif), "image/gif"),
    );
    assert!(file.is_ok());
    if let Ok(BytesAndMime(bytes, ct)) = file {
        assert!(bytes.len() > 0);
        assert_eq!(ct, "image/webp".to_string())
    }
}

#[test]
fn origin_that_refuses_everything_gives_its_status() {
    let downloader = Downloader::new(None);
    let origin = Origin { status: 403, declared_length: None, content_type: None, chunks: Vec::new() };
    assert!(matches!(
        fetch(&downloader, "https://sh.nfs.pub/a.png", &origin),
        Err(FileDownloadError::InvalidStatusCode(403))
    ));
}
