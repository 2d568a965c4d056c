use infat::metadata::read_bundle_metadata;
use infat::workspace::BundleMetadata;

fn xml_plist(body: &str) -> Vec<u8> {
    format!(
        "<?xml version=\"1.0\" encoding=\"UTF-8\"?>\n\
         <!DOCTYPE plist PUBLIC \"-//Apple//DTD PLIST 1.0//EN\" \
         \"http://www.apple.com/DTDs/PropertyList-1.0.dtd\">\n\
         <plist version=\"1.0\">{body}</plist>"
    )
    .into_bytes()
}

#[test]
fn full_metadata_is_extracted() {
    let bytes = xml_plist(
        "<dict>\
           <key>CFBundleIdentifier</key><string>com.example.surf</string>\
           <key>CFBundleDisplayName</key><string>Surf</string>\
           <key>CFBundleName</key><string>SurfInternal</string>\
           <key>CFBundleShortVersionString</key><string>2.1</string>\
           <key>CFBundleVersion</key><string>210</string>\
           <key>CFBundleDocumentTypes</key><array>\
             <dict>\
               <key>CFBundleTypeName</key><string>Web page</string>\
               <key>CFBundleTypeDescription</key><string>A page</string>\
               <key>LSItemContentTypes</key><array>\
                 <string>public.html</string><string>public.xhtml</string>\
               </array>\
               <key>CFBundleTypeExtensions</key><array>\
                 <string>html</string><string>htm</string>\
               </array>\
             </dict>\
           </array>\
           <key>CFBundleURLTypes</key><array>\
             <dict><key>CFBundleURLSchemes</key><array>\
               <string>http</string><string>https</string>\
             </array></dict>\
           </array>\
         </dict>",
    );
    match read_bundle_metadata(&bytes) {
        BundleMetadata::Parsed(meta) => {
            assert_eq!(meta.bundle_id, Some("com.example.surf".to_string()));
            assert_eq!(meta.display_name, Some("Surf".to_string()));
            assert_eq!(meta.name, Some("SurfInternal".to_string()));
            assert_eq!(meta.version, Some("2.1".to_string()));
            assert_eq!(meta.declared_schemes, vec!["http".to_string(), "https".to_string()]);
            assert_eq!(meta.declared_types.len(), 1);
            let dt = &meta.declared_types[0];
            assert_eq!(dt.name, "Web page");
            assert_eq!(dt.description, Some("A page".to_string()));
            assert_eq!(dt.utis, vec!["public.html".to_string(), "public.xhtml".to_string()]);
            assert_eq!(dt.extensions, vec!["html".to_string(), "htm".to_string()]);
        },
        other => panic!("expected parsed metadata, got {other:?}"),
    }
}

#[test]
fn build_version_is_the_fallback() {
    let bytes = xml_plist(
        "<dict>\
           <key>CFBundleIdentifier</key><string>com.example.a</string>\
           <key>CFBundleVersion</key><string>42</string>\
         </dict>",
    );
    match read_bundle_metadata(&bytes) {
        BundleMetadata::Parsed(meta) => {
            assert_eq!(meta.version, Some("42".to_string()));
            assert_eq!(meta.display_name, None);
            assert!(meta.declared_types.is_empty());
            assert!(meta.declared_schemes.is_empty());
        },
        other => panic!("expected parsed metadata, got {other:?}"),
    }
}

#[test]
fn garbage_bytes_are_unreadable() {
    match read_bundle_metadata(b"this is not a property list") {
        BundleMetadata::Unreadable { message } => assert!(!message.is_empty()),
        other => panic!("expected unreadable metadata, got {other:?}"),
    }
}

#[test]
fn non_dictionary_root_is_unreadable() {
    let bytes = xml_plist("<array><string>lonely</string></array>");
    assert!(matches!(
        read_bundle_metadata(&bytes),
        BundleMetadata::Unreadable { .. }
    ));
}

#[test]
fn missing_identifier_is_parsed_with_no_id() {
    let bytes = xml_plist("<dict><key>CFBundleName</key><string>Anon</string></dict>");
    match read_bundle_metadata(&bytes) {
        BundleMetadata::Parsed(meta) => {
            assert_eq!(meta.bundle_id, None);
            assert_eq!(meta.name, Some("Anon".to_string()));
        },
        other => panic!("expected parsed metadata, got {other:?}"),
    }
}
