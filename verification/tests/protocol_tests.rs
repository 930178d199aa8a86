use pan_upload::digest;
use pan_upload::protocol::{
    chunk_upload_url, create_request, precreate_request, METHOD_CREATE, METHOD_PRECREATE,
    XPAN_FILE_URL,
};

#[test]
fn precreate_request_fields() {
    let digests = vec![digest(b"abc"), digest(b"def")];
    let req = precreate_request("/dir/f.bin", 123, &digests);
    assert_eq!(req.path, "/dir/f.bin");
    assert_eq!(req.size, 123);
    assert_eq!(req.isdir, 0);
    assert_eq!(req.autoinit, 1);
    assert_eq!(req.rtype, 3);
    assert_eq!(
        req.block_list,
        "[\"900150983cd24fb0d6963f7d28e17f72\",\"4ed9407630eb1000c0f6b63842defa7d\"]"
    );
}

#[test]
fn precreate_request_single_digest() {
    let digests = vec![digest(b"")];
    let req = precreate_request("/x", 0, &digests);
    assert_eq!(req.block_list, "[\"d41d8cd98f00b204e9800998ecf8427e\"]");
}

#[test]
fn create_request_fields() {
    let digests = vec![digest(b"abc")];
    let req = create_request("/dir/f.bin", 3, "SESSION42", &digests);
    assert_eq!(req.path, "/dir/f.bin");
    assert_eq!(req.size, 3);
    assert_eq!(req.isdir, 0);
    assert_eq!(req.rtype, 3);
    assert_eq!(req.uploadid, "SESSION42");
    assert_eq!(req.block_list, "[\"900150983cd24fb0d6963f7d28e17f72\"]");
}

#[test]
fn chunk_upload_url_escapes_path_and_numbers_chunks() {
    let url = chunk_upload_url("tok", "/a b/c.txt", "UP99", 7);
    assert_eq!(
        url,
        "https://d.pcs.baidu.com/rest/2.0/pcs/superfile2?method=upload&access_token=tok\
         &type=tmpfile&path=%2Fa%20b%2Fc.txt&uploadid=UP99&partseq=7"
    );
}

#[test]
fn endpoint_constants() {
    assert_eq!(XPAN_FILE_URL, "https://pan.baidu.com/rest/2.0/xpan/file");
    assert_eq!(METHOD_PRECREATE, "precreate");
    assert_eq!(METHOD_CREATE, "create");
}
