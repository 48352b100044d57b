use rusty_s3::actions::CompleteMultipartUpload;

fn body(etags: &[&str]) -> String {
    let endpoint = "http://localhost:9000".parse().unwrap();
    let bucket = rusty_s3::Bucket::new(endpoint, rusty_s3::UrlStyle::Path, "b", "").unwrap();
    CompleteMultipartUpload::new(&bucket, None, "k", "u", etags.iter().copied()).body()
}

#[test]
fn completion_body_forms() {
    assert_eq!(body(&[]), "<CompleteMultipartUpload/>");
    assert_eq!(
        body(&["a<b>&'\" c "]),
        "<CompleteMultipartUpload><Part><ETag>a&lt;b&gt;&amp;&apos;&quot; c </ETag><PartNumber>1</PartNumber></Part></CompleteMultipartUpload>"
    );
    assert_eq!(
        body(&["", "x"]),
        "<CompleteMultipartUpload><Part><ETag/><PartNumber>1</PartNumber></Part><Part><ETag>x</ETag><PartNumber>2</PartNumber></Part></CompleteMultipartUpload>"
    );
    let many: Vec<String> = (1..=11).map(|i| format!("e{i}")).collect();
    let many: Vec<&str> = many.iter().map(|s| s.as_str()).collect();
    let expected: String = (1..=11).map(|i| format!("<Part><ETag>e{i}</ETag><PartNumber>{i}</PartNumber></Part>")).collect();
    assert_eq!(body(&many), format!("<CompleteMultipartUpload>{expected}</CompleteMultipartUpload>"));
}
