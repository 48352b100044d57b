use std::collections::{BTreeMap, HashMap};

use strois::bucket::Bucket;
use strois::client::Client;
use strois::error::{Error, InternalError, S3ErrorCode, UserError};
use strois::listing::{ListObjectIterator, ListStep, ObjectEntry};
use strois::multipart::{UploadPhase, UploadStep};
use strois::request::{Action, Method, Request, Response};

/// A store in memory that answers the library's signed requests, path style.
#[derive(Default)]
struct Store {
    buckets: HashMap<String, BTreeMap<String, Vec<u8>>>,
    uploads: HashMap<String, BTreeMap<u16, Vec<u8>>>,
    listing: Vec<String>,
    requests: Vec<(Method, String)>,
    part_numbers: Vec<u16>,
    completions: Vec<String>,
    next_upload: u32,
}

fn error_body(code: &str, message: &str, bucket: &str, resource: &str) -> Vec<u8> {
    format!(
        "<?xml version=\"1.0\" encoding=\"UTF-8\"?>\n<Error><Code>{code}</Code><Message>{message}</Message>\
         <BucketName>{bucket}</BucketName><Resource>{resource}</Resource><RequestId>17</RequestId>\
         <HostId>dd9025bab4ad464b049177c95eb6ebf374d3b3fd1af9251148b658df7ac2e3e8</HostId></Error>"
    )
    .into_bytes()
}

fn answer(status: u16, body: Vec<u8>) -> Response {
    Response { status, headers: vec![("content-type".to_string(), "application/xml".to_string())], body }
}

impl Store {
    fn send(&mut self, req: &Request) -> Result<Response, Error> {
        let url = url::Url::parse(&req.url).expect("the library signs urls");
        let query: HashMap<String, String> = url.query_pairs().map(|(k, v)| (k.into_owned(), v.into_owned())).collect();
        let segments: Vec<String> = url.path_segments().unwrap().map(|s| s.to_string()).collect();
        let bucket = segments[0].clone();
        let key = segments[1..].join("/");
        self.requests.push((req.method, key.clone()));
        if !self.buckets.contains_key(&bucket) && !(req.method == Method::Put && key.is_empty()) {
            return Ok(answer(404, error_body("NoSuchBucket", "The specified bucket does not exist", &bucket, &bucket)));
        }
        match (req.method, key.is_empty()) {
            (Method::Put, true) => {
                if self.buckets.contains_key(&bucket) {
                    return Ok(answer(409, error_body("BucketAlreadyOwnedByYou", "Your previous request to create the named bucket succeeded and you already own it.", &bucket, &bucket)));
                }
                self.buckets.insert(bucket, BTreeMap::new());
                Ok(answer(200, Vec::new()))
            }
            (Method::Delete, true) => {
                self.buckets.remove(&bucket);
                Ok(answer(204, Vec::new()))
            }
            (Method::Get, true) => {
                let token = query.get("continuation-token").cloned();
                let page = match token {
                    None => 0,
                    Some(t) => t.trim_start_matches('T').parse::<usize>().unwrap(),
                };
                Ok(answer(200, self.listing[page].clone().into_bytes()))
            }
            (Method::Post, false) if query.contains_key("uploads") => {
                self.next_upload += 1;
                let id = format!("upload-{}", self.next_upload);
                self.uploads.insert(id.clone(), BTreeMap::new());
                let body = format!("<InitiateMultipartUploadResult><Bucket>{bucket}</Bucket><Key>{key}</Key><UploadId>{id}</UploadId></InitiateMultipartUploadResult>");
                Ok(answer(200, body.into_bytes()))
            }
            (Method::Put, false) if query.contains_key("uploadId") => {
                let part: u16 = query["partNumber"].parse().unwrap();
                self.part_numbers.push(part);
                self.uploads.get_mut(&query["uploadId"]).unwrap().insert(part, req.body.clone());
                let mut resp = answer(200, Vec::new());
                resp.headers.push(("ETag".to_string(), format!("\"etag-{part}\"")));
                Ok(resp)
            }
            (Method::Post, false) => {
                let parts = self.uploads.remove(&query["uploadId"]).unwrap();
                let body = String::from_utf8(req.body.clone()).unwrap();
                self.completions.push(body.clone());
                let mut object = Vec::new();
                for piece in body.split("<Part>").skip(1) {
                    let number: u16 = piece.split("<PartNumber>").nth(1).unwrap().split('<').next().unwrap().parse().unwrap();
                    let etag = piece.split("<ETag>").nth(1).unwrap().split('<').next().unwrap();
                    assert_eq!(etag, format!("etag-{number}"));
                    object.extend_from_slice(&parts[&number]);
                }
                if parts.is_empty() || body.matches("<Part>").count() != parts.len() {
                    return Ok(answer(400, error_body("MalformedXML", "The XML you provided was not well-formed", &bucket, &key)));
                }
                self.buckets.get_mut(&bucket).unwrap().insert(key, object);
                Ok(answer(200, Vec::new()))
            }
            (Method::Put, false) => {
                self.buckets.get_mut(&bucket).unwrap().insert(key, req.body.clone());
                Ok(answer(200, Vec::new()))
            }
            (Method::Get, false) => match self.buckets[&bucket].get(&key) {
                Some(object) => Ok(answer(200, object.clone())),
                None => Ok(answer(404, error_body("NoSuchKey", "The specified key does not exist.", &bucket, &format!("/{bucket}/{key}")))),
            },
            (Method::Delete, false) => {
                self.buckets.get_mut(&bucket).unwrap().remove(&key);
                Ok(answer(204, Vec::new()))
            }
            (Method::Post, true) => Ok(answer(405, error_body("MethodNotAllowed", "The specified method is not allowed against this resource.", &bucket, &bucket))),
        }
    }
}

fn client(multipart_size: Option<usize>) -> Client {
    let builder = Client::builder("http://127.0.0.1:9000")
        .unwrap()
        .key("minioadmin")
        .secret("minioadmin")
        .with_url_path_style(true);
    match multipart_size {
        Some(n) => builder.multipart_size(n).client(),
        None => builder.client(),
    }
}

#[derive(Debug)]
struct TestBucket(Bucket);

fn new_bucket(store: &mut Store, name: &str, multipart_size: Option<usize>) -> TestBucket {
    let bucket = client(multipart_size).bucket(name).unwrap();
    let created = store.send(&bucket.create());
    TestBucket(bucket.get_or_create(created).unwrap())
}

/// Puts `source` in parts, reading it in pieces of at most `piece` bytes.
fn upload(store: &mut Store, bucket: &Bucket, path: &str, source: &[u8], piece: usize) -> Result<(), Error> {
    let (mut upload, req) = bucket.put_object_multipart(path)?;
    let mut step = upload.on_response(store.send(&req))?;
    let mut offset = 0;
    loop {
        step = match step {
            UploadStep::Send(req) => upload.on_response(store.send(&req))?,
            UploadStep::Read(room) => {
                let n = room.min(piece).min(source.len() - offset);
                let data = &source[offset..offset + n];
                offset += n;
                upload.on_read(data)?
            }
            UploadStep::Finished => return Ok(()),
        };
    }
}

fn get_string(store: &mut Store, bucket: &Bucket, path: &str) -> Result<String, Error> {
    Bucket::get_object_string(store.send(&bucket.get_object(path)?))
}

fn get_bytes(store: &mut Store, bucket: &Bucket, path: &str) -> Result<Vec<u8>, Error> {
    Bucket::get_object_bytes(store.send(&bucket.get_object(path)?))
}

fn walk(store: &mut Store, mut it: ListObjectIterator) -> (Vec<ObjectEntry>, usize) {
    let mut entries = Vec::new();
    let mut fetches = 0;
    loop {
        match it.next() {
            ListStep::Entry(e) => entries.push(e),
            ListStep::Fetch(req) => {
                let Action::ListObjects { token, .. } = &req.action else { panic!("{:?}", req.action) };
                assert_eq!(token.clone(), if fetches == 0 { None } else { Some(format!("T{fetches}")) });
                fetches += 1;
                it.receive_page(store.send(&req)).unwrap();
            }
            ListStep::Done => break,
        }
    }
    for _ in 0..3 {
        assert!(matches!(it.next(), ListStep::Done));
    }
    (entries, fetches)
}

fn listing_page(keys: &[(&str, u64)], token: Option<&str>) -> String {
    let mut body = String::from("<?xml version=\"1.0\" encoding=\"UTF-8\"?><ListBucketResult><Name>tamo</Name><Prefix></Prefix><MaxKeys>2</MaxKeys>");
    for (key, size) in keys {
        body.push_str(&format!("<Contents><Key>{key}</Key><LastModified>2023-06-01T10:00:00.000Z</LastModified><ETag>\"e-{key}\"</ETag><Size>{size}</Size><StorageClass>STANDARD</StorageClass></Contents>"));
    }
    if let Some(token) = token {
        body.push_str(&format!("<NextContinuationToken>{token}</NextContinuationToken>"));
    }
    body.push_str("</ListBucketResult>");
    body
}

#[test]
fn create_new_bucket() {
    let mut store = Store::default();
    let bucket = new_bucket(&mut store, "strois-bucket-test-create-new-bucket", None);
    let expected = r#"TestBucket(
    Bucket {
        client: Client {
            addr: Url {
                scheme: "http",
                cannot_be_a_base: false,
                username: "",
                password: None,
                host: Some(
                    Ipv4(
                        127.0.0.1,
                    ),
                ),
                port: Some(
                    9000,
                ),
                path: "/",
                query: None,
                fragment: None,
            },
            region: "",
            cred: Credentials {
                key: "minioadmin",
            },
            url_style: Path,
            actions_expires_in: 3600s,
            timeout: 60s,
            multipart_size: 52428800,
        },
        bucket: Bucket {
            base_url: Url {
                scheme: "http",
                cannot_be_a_base: false,
                username: "",
                password: None,
                host: Some(
                    Ipv4(
                        127.0.0.1,
                    ),
                ),
                port: Some(
                    9000,
                ),
                path: "/strois-bucket-test-create-new-bucket/",
                query: None,
                fragment: None,
            },
            name: "strois-bucket-test-create-new-bucket",
            region: "",
        },
    },
)"#;
    assert_eq!(format!("{:#?}", bucket), expected);
}

#[test]
fn delete_bucket() {
    let mut store = Store::default();
    let bucket = new_bucket(&mut store, "strois-bucket-test-delete-bucket", None);
    let ret = strois::request::classify(store.send(&bucket.0.delete())).map(|_| ());
    assert_eq!(format!("{:#?}", ret), "Ok(\n    (),\n)");
}

#[test]
fn put_get_delete_object() {
    let mut store = Store::default();
    let bucket = new_bucket(&mut store, "strois-bucket-test-put-get-delete-object", None);
    let put = bucket.0.put_object("tamo", b"kero").unwrap();
    strois::request::classify(store.send(&put)).unwrap();

    let content = get_string(&mut store, &bucket.0, "tamo").unwrap();
    assert_eq!(content, "kero");

    strois::request::classify(store.send(&bucket.0.delete_object("tamo").unwrap())).unwrap();

    let ret = get_string(&mut store, &bucket.0, "tamo").unwrap_err();
    match ret {
        Error::S3Error(e) => assert_eq!(
            e.to_string(),
            r#"NoSuchKey: The specified key does not exist. on Some("strois-bucket-test-put-get-delete-object")"#
        ),
        other => panic!("{other:?}"),
    }
}

#[test]
fn put_multipart() {
    let mut store = Store::default();
    let bucket = new_bucket(&mut store, "strois-bucket-test-put-multipart", None);
    let mut payload = "tamo ".repeat(1024 * 1024); // 5MiB payload
    payload.push_str("tamo."); // 5Mib + 5 bytes

    // With the default part size that's only one part.
    upload(&mut store, &bucket.0, "tamo", payload.as_bytes(), 1 << 20).unwrap();
    let content = get_string(&mut store, &bucket.0, "tamo").unwrap();
    assert_eq!(content, payload);
    assert_eq!(store.part_numbers, vec![1]);
    strois::request::classify(store.send(&bucket.0.delete_object("tamo").unwrap())).unwrap();

    // 5MiB the minimum possible size for multipart.
    let bucket = TestBucket(client(Some(5 * 1024 * 1024)).bucket("strois-bucket-test-put-multipart").unwrap());

    // This will create two parts
    store.part_numbers.clear();
    upload(&mut store, &bucket.0, "tamo", payload.as_bytes(), 1 << 20).unwrap();
    let content = get_string(&mut store, &bucket.0, "tamo").unwrap();
    assert_eq!(content, payload);
    assert_eq!(store.part_numbers, vec![1, 2]);
    strois::request::classify(store.send(&bucket.0.delete_object("tamo").unwrap())).unwrap();
}

#[test]
fn new_client() {
    let client = Client::builder("http://127.0.0.1:9000")
        .unwrap()
        .key("minioadmin")
        .secret("minioadmin")
        .client();
    let expected = r#"Client {
    addr: Url {
        scheme: "http",
        cannot_be_a_base: false,
        username: "",
        password: None,
        host: Some(
            Ipv4(
                127.0.0.1,
            ),
        ),
        port: Some(
            9000,
        ),
        path: "/",
        query: None,
        fragment: None,
    },
    region: "",
    cred: Credentials {
        key: "minioadmin",
    },
    url_style: VirtualHost,
    actions_expires_in: 3600s,
    timeout: 60s,
    multipart_size: 52428800,
}"#;
    assert_eq!(format!("{:#?}", client), expected);
}

#[test]
fn multipart_rebuilds_every_length() {
    for chunk in [1usize, 3, 4, 7] {
        for len in [1usize, 2, 3, 4, 6, 7, 8, 13, 28] {
            let mut store = Store::default();
            let bucket = new_bucket(&mut store, "parts", Some(chunk));
            let source: Vec<u8> = (0..len).map(|i| (i * 37 % 251) as u8).collect();
            for piece in [1usize, 2, 5] {
                store.part_numbers.clear();
                upload(&mut store, &bucket.0, "obj", &source, piece).unwrap();
                assert_eq!(get_bytes(&mut store, &bucket.0, "obj").unwrap(), source);
                let parts = (len + chunk - 1) / chunk;
                assert_eq!(store.part_numbers, (1..=parts as u16).collect::<Vec<_>>());
            }
        }
    }
}

#[test]
fn multipart_completion_lists_parts_in_order() {
    let mut store = Store::default();
    let bucket = new_bucket(&mut store, "order", Some(2));
    upload(&mut store, &bucket.0, "obj", b"abcdefg", 2).unwrap();
    assert_eq!(store.part_numbers, vec![1, 2, 3, 4]);
    assert_eq!(
        store.completions[0],
        "<CompleteMultipartUpload><Part><ETag>etag-1</ETag><PartNumber>1</PartNumber></Part><Part><ETag>etag-2</ETag><PartNumber>2</PartNumber></Part><Part><ETag>etag-3</ETag><PartNumber>3</PartNumber></Part><Part><ETag>etag-4</ETag><PartNumber>4</PartNumber></Part></CompleteMultipartUpload>"
    );
}

#[test]
fn multipart_refuses_part_ten_thousand_and_one() {
    let mut store = Store::default();
    let bucket = new_bucket(&mut store, "many", Some(1));
    let source = vec![7u8; 10_001];
    let err = upload(&mut store, &bucket.0, "obj", &source, 1).unwrap_err();
    assert!(matches!(err, Error::UserError(UserError::TriedToSendMoreThan10000PartsInMultiPart)));
    assert_eq!(store.part_numbers.len(), 10_000);
    assert_eq!(*store.part_numbers.last().unwrap(), 10_000);
    assert!(store.completions.is_empty());
}

#[test]
fn multipart_of_exactly_ten_thousand_parts() {
    let mut store = Store::default();
    let bucket = new_bucket(&mut store, "many", Some(1));
    let source: Vec<u8> = (0..10_000u32).map(|i| i as u8).collect();
    upload(&mut store, &bucket.0, "obj", &source, 1).unwrap();
    assert_eq!(get_bytes(&mut store, &bucket.0, "obj").unwrap(), source);
}

#[test]
fn multipart_of_empty_source_completes_without_parts() {
    let mut store = Store::default();
    let bucket = new_bucket(&mut store, "empty", Some(4));
    let err = upload(&mut store, &bucket.0, "obj", b"", 4).unwrap_err();
    assert!(store.part_numbers.is_empty());
    assert_eq!(store.completions.len(), 1);
    match err {
        Error::S3Error(e) => assert_eq!(e.code, S3ErrorCode::MalformedXML),
        other => panic!("{other:?}"),
    }
}

#[test]
fn multipart_phases() {
    let mut store = Store::default();
    let bucket = new_bucket(&mut store, "phases", Some(3));
    let (mut up, req) = bucket.0.put_object_multipart("obj").unwrap();
    assert_eq!(up.phase(), UploadPhase::Creating);
    assert_eq!(req.method, Method::Post);
    assert!(matches!(up.on_response(store.send(&req)).unwrap(), UploadStep::Read(3)));
    assert!(matches!(up.on_read(b"a").unwrap(), UploadStep::Read(2)));
    let UploadStep::Send(part) = up.on_read(b"bc").unwrap() else { panic!() };
    assert_eq!(part.body, b"abc");
    assert_eq!(up.phase(), UploadPhase::Uploading);
    assert!(matches!(up.on_response(store.send(&part)).unwrap(), UploadStep::Read(3)));
    let UploadStep::Send(last) = up.on_read(b"d").and_then(|_| up.on_read(b"")).unwrap() else { panic!() };
    assert_eq!(last.body, b"d");
    assert_eq!(up.phase(), UploadPhase::UploadingLast);
    let UploadStep::Send(complete) = up.on_response(store.send(&last)).unwrap() else { panic!() };
    assert_eq!(up.phase(), UploadPhase::Completing);
    assert!(matches!(up.on_response(store.send(&complete)).unwrap(), UploadStep::Finished));
    assert_eq!(up.phase(), UploadPhase::Finished);
}

#[test]
fn multipart_part_without_etag_is_internal_error() {
    let mut store = Store::default();
    let bucket = new_bucket(&mut store, "noetag", Some(3));
    let (mut up, req) = bucket.0.put_object_multipart("obj").unwrap();
    up.on_response(store.send(&req)).unwrap();
    let UploadStep::Send(_) = up.on_read(b"abc").unwrap() else { panic!() };
    let resp = Response { status: 200, headers: vec![("Server".into(), "x".into()), ("Date".into(), "y".into())], body: vec![] };
    match up.on_response(Ok(resp)).unwrap_err() {
        Error::InternalError(InternalError::MultipartMissingEtagHeader(names)) => assert_eq!(names, "Server, Date"),
        other => panic!("{other:?}"),
    }
    assert_eq!(up.phase(), UploadPhase::Failed);
}

#[test]
fn multipart_transport_failure_ends_upload() {
    let mut store = Store::default();
    let bucket = new_bucket(&mut store, "transport", Some(3));
    let (mut up, req) = bucket.0.put_object_multipart("obj").unwrap();
    up.on_response(store.send(&req)).unwrap();
    let UploadStep::Send(_) = up.on_read(b"abc").unwrap() else { panic!() };
    let err = up.on_response(Err(Error::HttpError("connection reset".into()))).unwrap_err();
    assert!(matches!(err, Error::HttpError(m) if m == "connection reset"));
    assert_eq!(up.phase(), UploadPhase::Failed);
}

#[test]
fn part_etag_loses_its_quotes() {
    let mut store = Store::default();
    let bucket = new_bucket(&mut store, "quotes", None);
    let req = bucket.0.create_multipart("obj").unwrap();
    let mut session = bucket.0.starts_multipart("obj", store.send(&req)).unwrap();
    let part = session.upload_part(b"xyz").unwrap();
    assert_eq!(part.body, b"xyz");
    match &part.action {
        Action::UploadPart { path, part, upload_id } => {
            assert_eq!((path.as_str(), *part, upload_id.as_str()), ("obj", 1, "upload-1"));
        }
        other => panic!("{other:?}"),
    }
    let resp = Response { status: 200, headers: vec![("etag".into(), "\"\"abc\"".into())], body: vec![] };
    session.part_uploaded(Ok(resp)).unwrap();
    let complete = session.complete();
    assert!(matches!(&complete.action, Action::CompleteMultipartUpload { path, upload_id } if path == "obj" && upload_id == "upload-1"));
    let body = String::from_utf8(complete.body).unwrap();
    assert!(body.contains("<ETag>abc</ETag><PartNumber>1</PartNumber>"), "{body}");
}

#[test]
fn starts_multipart_on_bad_answer() {
    let mut store = Store::default();
    let bucket = new_bucket(&mut store, "bad", None);
    let resp = Response { status: 200, headers: vec![], body: b"<Nothing/>".to_vec() };
    let err = bucket.0.starts_multipart("obj", Ok(resp)).err().unwrap();
    assert!(matches!(err, Error::InternalError(InternalError::BadS3Payload(_))));
    let resp = Response { status: 200, headers: vec![], body: vec![0xff, 0xfe] };
    let err = bucket.0.starts_multipart("obj", Ok(resp)).err().unwrap();
    assert!(matches!(err, Error::InternalError(InternalError::S3ReturnedNonUtf8Payload(_))));
}

#[test]
fn listing_walks_pages_in_order() {
    let mut store = Store::default();
    let bucket = new_bucket(&mut store, "list", None);
    store.listing = vec![
        listing_page(&[("a", 1), ("b", 22)], Some("T1")),
        listing_page(&[("c", 333)], None),
    ];
    let (entries, fetches) = walk(&mut store, bucket.0.list_objects(""));
    let keys: Vec<(String, u64)> = entries.iter().map(|e| (e.key.clone(), e.size)).collect();
    assert_eq!(keys, vec![("a".to_string(), 1), ("b".to_string(), 22), ("c".to_string(), 333)]);
    assert_eq!(entries[0].etag, "\"e-a\"");
    assert_eq!(entries[2].last_modified, "2023-06-01T10:00:00.000Z");
    assert_eq!(fetches, 2);
}

#[test]
fn listing_follows_empty_page_with_token() {
    let mut store = Store::default();
    let bucket = new_bucket(&mut store, "list", None);
    store.listing = vec![
        listing_page(&[], Some("T1")),
        listing_page(&[], Some("T2")),
        listing_page(&[("z", 0)], None),
    ];
    let (entries, fetches) = walk(&mut store, bucket.0.list_objects("pre"));
    assert_eq!(entries.len(), 1);
    assert_eq!(entries[0].key, "z");
    assert_eq!(fetches, 3);
}

#[test]
fn listing_failure_ends_listing() {
    let mut store = Store::default();
    let bucket = new_bucket(&mut store, "list", None);
    let mut it = bucket.0.list_objects("");
    match it.next() {
        ListStep::Fetch(req) => {
            assert!(matches!(req.action, Action::ListObjects { prefix, token: None } if prefix.is_empty()))
        }
        other => panic!("{other:?}"),
    }
    let err = it.receive_page(Ok(Response { status: 200, headers: vec![], body: b"not xml <".to_vec() })).unwrap_err();
    assert!(matches!(err, Error::InternalError(InternalError::BadS3Payload(_))));
    assert!(matches!(it.next(), ListStep::Done));
    assert!(matches!(it.next(), ListStep::Done));
}

#[test]
fn missing_key_is_store_error() {
    let mut store = Store::default();
    let bucket = new_bucket(&mut store, "absent", None);
    let err = get_bytes(&mut store, &bucket.0, "nothing-here").unwrap_err();
    match err {
        Error::S3Error(e) => {
            assert_eq!(e.code, S3ErrorCode::NoSuchKey);
            assert_eq!(e.status_code, 404);
            assert_eq!(e.resource, "/absent/nothing-here");
            assert_eq!(e.request_id, "17");
        }
        other => panic!("{other:?}"),
    }
}

#[test]
fn non_utf8_object_reads_as_bytes_only() {
    let mut store = Store::default();
    let bucket = new_bucket(&mut store, "bytes", None);
    let payload = vec![0x66, 0xff, 0x00, 0xc3];
    strois::request::classify(store.send(&bucket.0.put_object("raw", &payload).unwrap())).unwrap();
    assert_eq!(get_bytes(&mut store, &bucket.0, "raw").unwrap(), payload);
    let err = get_string(&mut store, &bucket.0, "raw").unwrap_err();
    assert!(matches!(err, Error::UserError(UserError::PayloadCouldNotBeConvertedToString(_))));
    assert_eq!(get_bytes(&mut store, &bucket.0, "raw").unwrap(), payload);
}

#[test]
fn get_or_create_accepts_existing_bucket() {
    let mut store = Store::default();
    let bucket = new_bucket(&mut store, "twice", None);
    let again = store.send(&bucket.0.create());
    assert_eq!(again.as_ref().unwrap().status, 409);
    let same = bucket.0.get_or_create(again).unwrap();
    assert_eq!(format!("{same:?}"), format!("{:?}", bucket.0));
    let refused = Ok(answer(403, error_body("AccessDenied", "Access Denied.", "twice", "/twice")));
    match bucket.0.get_or_create(refused) {
        Err(Error::S3Error(e)) => assert_eq!(e.code, S3ErrorCode::AccessDenied),
        other => panic!("{other:?}"),
    }
}

#[test]
fn invalid_names_and_paths_are_user_errors() {
    let c = client(None);
    for name in ["", "Upper", "-lead", "trail-", "a..b", "xn--abc", "a.xn--b", "sp ace", "sl/ash"] {
        assert!(matches!(c.bucket(name), Err(Error::UserError(UserError::InvalidBucketName(_)))), "{name}");
    }
    for name in ["a", "tamo", "my.bucket-1", "xnx--a", "a.xn-b"] {
        assert!(c.bucket(name).is_ok(), "{name}");
    }
    let bucket = c.bucket("tamo").unwrap();
    assert!(matches!(bucket.get_object("//x"), Err(Error::UserError(UserError::InvalidObjectPath(p))) if p == "//x"));
    assert!(bucket.put_object("//", b"x").is_err());
    assert!(bucket.delete_object("/x").is_ok());
}

#[test]
fn virtual_host_style_needs_a_domain() {
    let ip = Client::builder("http://127.0.0.1:9000").unwrap().key("k").secret("s").client();
    assert!(matches!(ip.bucket("tamo"), Err(Error::UserError(UserError::VirtualHostStyleNeedsDomain))));
    let named = Client::builder("http://localhost:9000").unwrap().key("k").secret("s").client();
    let bucket = named.bucket("tamo").unwrap();
    assert!(bucket.create().url.starts_with("http://tamo.localhost:9000/"));
    assert!(matches!(named.bucket("Tamo"), Err(Error::UserError(UserError::InvalidBucketName(_)))));
}

#[test]
fn builder_defaults_and_settings() {
    let c = client(None);
    assert_eq!(c.multipart_size(), 50 * 1024 * 1024);
    assert_eq!(c.region(), "");
    assert_eq!(c.timeout(), std::time::Duration::from_secs(60));
    let c = Client::builder("http://localhost:9000")
        .unwrap()
        .secret("s")
        .region("eu-central-1")
        .key("k")
        .token("t")
        .timeout(std::time::Duration::from_secs(5))
        .multipart_size(7)
        .client();
    assert_eq!(c.region(), "eu-central-1");
    assert_eq!(c.multipart_size(), 7);
    assert_eq!(c.timeout(), std::time::Duration::from_secs(5));
    assert_eq!(c.url_style(), strois::client::UrlStyle::VirtualHost);
    assert!(Client::builder("not a url").is_err());
    assert!(matches!(Bucket::builder("::"), Err(Error::Url(_))));
}

#[test]
fn file_threshold() {
    assert!(!Bucket::put_object_file_in_parts(0));
    assert!(!Bucket::put_object_file_in_parts(5 * 1024 * 1024 - 1));
    assert!(Bucket::put_object_file_in_parts(5 * 1024 * 1024));
    assert!(Bucket::put_object_file_in_parts(5 * 1024 * 1024 + 1));
}
