//! Resource and tile-server options handed to the native renderer.
//!
//! Each setting that has not been given keeps the native renderer's own
//! default; the native renderer receives every given setting when a renderer
//! is built.

use vstd::prelude::*;

verus! {

/// A copy of a byte string.
fn copy_bytes(v: &Vec<u8>) -> (r: Vec<u8>)
    ensures
        r@ == v@,
{
    let mut r: Vec<u8> = Vec::new();
    let mut i: usize = 0;
    while i < v.len()
        invariant
            0 <= i <= v@.len(),
            r@ =~= v@.subrange(0, i as int),
        decreases v@.len() - i,
    {
        r.push(v[i]);
        i = i + 1;
    }
    proof {
        assert(r@ =~= v@);
    }
    r
}

/// The bytes of an optional byte string, if any.
pub open spec fn bytes_of(o: Option<Vec<u8>>) -> Option<Seq<u8>> {
    match o {
        Some(v) => Some(v@),
        None => None,
    }
}

/// The text of an optional string, if any.
pub open spec fn text_of(o: Option<String>) -> Option<Seq<char>> {
    match o {
        Some(s) => Some(s@),
        None => None,
    }
}

fn copy_optional_bytes(o: &Option<Vec<u8>>) -> (r: Option<Vec<u8>>)
    ensures
        bytes_of(r) == bytes_of(*o),
{
    match o {
        Some(v) => Some(copy_bytes(v)),
        None => None,
    }
}

fn copy_optional_text(o: &Option<String>) -> (r: Option<String>)
    ensures
        text_of(r) == text_of(*o),
{
    match o {
        Some(s) => Some(s.clone()),
        None => None,
    }
}

/// A URL template of a tile server, with the domain name and version prefix
/// that it is used with.
#[derive(Debug)]
pub struct UrlTemplate {
    /// The template, as the bytes of its path.
    pub template: Vec<u8>,
    /// The domain name.
    pub domain_name: String,
    /// The version prefix.
    pub version_prefix: String,
}

/// The contents of a URL template: template, domain name, version prefix.
pub open spec fn template_of(o: Option<UrlTemplate>) -> Option<(Seq<u8>, Seq<char>, Seq<char>)> {
    match o {
        Some(t) => Some((t.template@, t.domain_name@, t.version_prefix@)),
        None => None,
    }
}

fn make_template(template: Vec<u8>, domain_name: &str, version_prefix: &str) -> (t: UrlTemplate)
    ensures
        t.template@ == template@,
        t.domain_name@ == domain_name@,
        t.version_prefix@ == version_prefix@,
{
    UrlTemplate {
        template,
        domain_name: domain_name.to_owned(),
        version_prefix: version_prefix.to_owned(),
    }
}

fn copy_optional_template(o: &Option<UrlTemplate>) -> (r: Option<UrlTemplate>)
    ensures
        template_of(r) == template_of(*o),
{
    match o {
        Some(t) => Some(
            UrlTemplate {
                template: copy_bytes(&t.template),
                domain_name: t.domain_name.clone(),
                version_prefix: t.version_prefix.clone(),
            },
        ),
        None => None,
    }
}

/// The settings that tile-server options hold; `None` keeps the native default.
#[verifier::ext_equal]
pub struct TileServerSettings {
    pub base_url: Option<Seq<u8>>,
    pub uri_scheme_alias: Option<Seq<u8>>,
    pub source_template: Option<(Seq<u8>, Seq<char>, Seq<char>)>,
    pub sprites_template: Option<(Seq<u8>, Seq<char>, Seq<char>)>,
    pub glyphs_template: Option<(Seq<u8>, Seq<char>, Seq<char>)>,
    pub tile_template: Option<(Seq<u8>, Seq<char>, Seq<char>)>,
    pub api_key_parameter_name: Option<Seq<char>>,
    pub requires_api_key: Option<bool>,
}

/// Configuration options for a tile server.
#[derive(Debug)]
pub struct TileServerOptions {
    /// The base URL, as the bytes of its path.
    pub base_url: Option<Vec<u8>>,
    /// The URI scheme alias, as the bytes of its path.
    pub uri_scheme_alias: Option<Vec<u8>>,
    /// The source template.
    pub source_template: Option<UrlTemplate>,
    /// The sprites template.
    pub sprites_template: Option<UrlTemplate>,
    /// The glyphs template.
    pub glyphs_template: Option<UrlTemplate>,
    /// The tile template.
    pub tile_template: Option<UrlTemplate>,
    /// The name of the API key parameter.
    pub api_key_parameter_name: Option<String>,
    /// Whether an API key is required.
    pub requires_api_key: Option<bool>,
}

impl View for TileServerOptions {
    type V = TileServerSettings;

    open spec fn view(&self) -> TileServerSettings {
        TileServerSettings {
            base_url: bytes_of(self.base_url),
            uri_scheme_alias: bytes_of(self.uri_scheme_alias),
            source_template: template_of(self.source_template),
            sprites_template: template_of(self.sprites_template),
            glyphs_template: template_of(self.glyphs_template),
            tile_template: template_of(self.tile_template),
            api_key_parameter_name: text_of(self.api_key_parameter_name),
            requires_api_key: self.requires_api_key,
        }
    }
}

impl Default for TileServerOptions {
    /// Create new tile server options object
    fn default() -> (o: Self)
        ensures
            o@ == (TileServerSettings {
                base_url: None,
                uri_scheme_alias: None,
                source_template: None,
                sprites_template: None,
                glyphs_template: None,
                tile_template: None,
                api_key_parameter_name: None,
                requires_api_key: None,
            }),
    {
        TileServerOptions {
            base_url: None,
            uri_scheme_alias: None,
            source_template: None,
            sprites_template: None,
            glyphs_template: None,
            tile_template: None,
            api_key_parameter_name: None,
            requires_api_key: None,
        }
    }
}

impl Clone for TileServerOptions {
    fn clone(&self) -> (o: Self)
        ensures
            o@ == self@,
    {
        TileServerOptions {
            base_url: copy_optional_bytes(&self.base_url),
            uri_scheme_alias: copy_optional_bytes(&self.uri_scheme_alias),
            source_template: copy_optional_template(&self.source_template),
            sprites_template: copy_optional_template(&self.sprites_template),
            glyphs_template: copy_optional_template(&self.glyphs_template),
            tile_template: copy_optional_template(&self.tile_template),
            api_key_parameter_name: copy_optional_text(&self.api_key_parameter_name),
            requires_api_key: self.requires_api_key,
        }
    }
}

impl TileServerOptions {
    /// Set base url
    pub fn with_base_url(self, path: Vec<u8>) -> (o: Self)
        ensures
            o@ == (TileServerSettings { base_url: Some(path@), ..self@ }),
    {
        TileServerOptions { base_url: Some(path), ..self }
    }

    /// Set uri scheme alias
    pub fn with_uri_scheme_alias(self, path: Vec<u8>) -> (o: Self)
        ensures
            o@ == (TileServerSettings { uri_scheme_alias: Some(path@), ..self@ }),
    {
        TileServerOptions { uri_scheme_alias: Some(path), ..self }
    }

    /// add source template
    pub fn with_source_template(
        self,
        style_template: Vec<u8>,
        domain_name: &str,
        version_prefix: &str,
    ) -> (o: Self)
        ensures
            o@ == (TileServerSettings {
                source_template: Some((style_template@, domain_name@, version_prefix@)),
                ..self@
            }),
    {
        let t = make_template(style_template, domain_name, version_prefix);
        TileServerOptions { source_template: Some(t), ..self }
    }

    /// Add sprites template
    pub fn with_sprites_template(
        self,
        sprites_template: Vec<u8>,
        domain_name: &str,
        version_prefix: &str,
    ) -> (o: Self)
        ensures
            o@ == (TileServerSettings {
                sprites_template: Some((sprites_template@, domain_name@, version_prefix@)),
                ..self@
            }),
    {
        let t = make_template(sprites_template, domain_name, version_prefix);
        TileServerOptions { sprites_template: Some(t), ..self }
    }

    /// Sets glyph URL template
    pub fn with_glyphs_template(
        self,
        glyphs_template: Vec<u8>,
        domain_name: &str,
        version_prefix: &str,
    ) -> (o: Self)
        ensures
            o@ == (TileServerSettings {
                glyphs_template: Some((glyphs_template@, domain_name@, version_prefix@)),
                ..self@
            }),
    {
        let t = make_template(glyphs_template, domain_name, version_prefix);
        TileServerOptions { glyphs_template: Some(t), ..self }
    }

    /// Sets tile URL template
    pub fn with_tile_template(
        self,
        tile_template: Vec<u8>,
        domain_name: &str,
        version_prefix: &str,
    ) -> (o: Self)
        ensures
            o@ == (TileServerSettings {
                tile_template: Some((tile_template@, domain_name@, version_prefix@)),
                ..self@
            }),
    {
        let t = make_template(tile_template, domain_name, version_prefix);
        TileServerOptions { tile_template: Some(t), ..self }
    }

    /// Sets API key parameter name
    pub fn with_api_key_parameter_name(self, api_key_parameter_name: &str) -> (o: Self)
        ensures
            o@ == (TileServerSettings {
                api_key_parameter_name: Some(api_key_parameter_name@),
                ..self@
            }),
    {
        TileServerOptions { api_key_parameter_name: Some(api_key_parameter_name.to_owned()), ..self }
    }

    /// Sets whether API key is required
    pub fn set_requires_api_key(self, api_key_required: bool) -> (o: Self)
        ensures
            o@ == (TileServerSettings { requires_api_key: Some(api_key_required), ..self@ }),
    {
        TileServerOptions { requires_api_key: Some(api_key_required), ..self }
    }
}

/// The settings that resource options hold; `None` keeps the native default.
#[verifier::ext_equal]
pub struct ResourceSettings {
    pub api_key: Option<Seq<char>>,
    pub cache_path: Option<Seq<u8>>,
    pub asset_path: Option<Seq<u8>>,
    pub maximum_cache_size: Option<u64>,
    pub tile_server_options: Option<TileServerSettings>,
}

/// Resource Options
#[derive(Debug)]
pub struct ResourceOptions {
    /// The API key.
    pub api_key: Option<String>,
    /// The cache database file, as the bytes of its path.
    pub cache_path: Option<Vec<u8>>,
    /// The assets root directory, as the bytes of its path.
    pub asset_path: Option<Vec<u8>>,
    /// The maximum cache size in bytes.
    pub maximum_cache_size: Option<u64>,
    /// The tile server options.
    pub tile_server_options: Option<TileServerOptions>,
}

/// The settings of optional tile-server options, if any.
pub open spec fn tile_server_settings_of(o: Option<TileServerOptions>) -> Option<TileServerSettings> {
    match o {
        Some(t) => Some(t@),
        None => None,
    }
}

impl View for ResourceOptions {
    type V = ResourceSettings;

    open spec fn view(&self) -> ResourceSettings {
        ResourceSettings {
            api_key: text_of(self.api_key),
            cache_path: bytes_of(self.cache_path),
            asset_path: bytes_of(self.asset_path),
            maximum_cache_size: self.maximum_cache_size,
            tile_server_options: tile_server_settings_of(self.tile_server_options),
        }
    }
}

impl Default for ResourceOptions {
    /// Create new resource options object
    fn default() -> (o: Self)
        ensures
            o@ == (ResourceSettings {
                api_key: None,
                cache_path: None,
                asset_path: None,
                maximum_cache_size: None,
                tile_server_options: None,
            }),
    {
        ResourceOptions {
            api_key: None,
            cache_path: None,
            asset_path: None,
            maximum_cache_size: None,
            tile_server_options: None,
        }
    }
}

impl ResourceOptions {
    /// Set api key
    pub fn with_api_key(self, key: &str) -> (o: Self)
        ensures
            o@ == (ResourceSettings { api_key: Some(key@), ..self@ }),
    {
        ResourceOptions { api_key: Some(key.to_owned()), ..self }
    }

    /// Sets cache database file path
    pub fn with_cache_path(self, path: Vec<u8>) -> (o: Self)
        ensures
            o@ == (ResourceSettings { cache_path: Some(path@), ..self@ }),
    {
        ResourceOptions { cache_path: Some(path), ..self }
    }

    /// Sets assets root directory
    pub fn with_asset_path(self, path: Vec<u8>) -> (o: Self)
        ensures
            o@ == (ResourceSettings { asset_path: Some(path@), ..self@ }),
    {
        ResourceOptions { asset_path: Some(path), ..self }
    }

    /// Set maximum cache size in bytes
    pub fn with_maximum_cache_size(self, max_cache_size: u64) -> (o: Self)
        ensures
            o@ == (ResourceSettings { maximum_cache_size: Some(max_cache_size), ..self@ }),
    {
        ResourceOptions { maximum_cache_size: Some(max_cache_size), ..self }
    }

    /// Set tile server options: the resource options keep a copy of them.
    pub fn with_tile_server_options(self, tile_server_options: &TileServerOptions) -> (o: Self)
        ensures
            o@ == (ResourceSettings { tile_server_options: Some(tile_server_options@), ..self@ }),
    {
        ResourceOptions { tile_server_options: Some(tile_server_options.clone()), ..self }
    }
}

} // verus!
