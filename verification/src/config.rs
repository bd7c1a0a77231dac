//! The configuration of a server, set before it starts to serve.

use crate::builder::{TeraBuilder, TeraBuilderModel};
use crate::dispatch::{ViewHandler, ViewHandlerModel};
use crate::engine::{TemplateFilter, TemplateFunction};
use crate::registry::Registry;
use crate::reload::ReloadPolicy;
use std::path::PathBuf;
use vstd::prelude::*;
use vstd::string::StringExecFns;

verus! {

/// `std::path::PathBuf`, carried as it is: the library reads no path.
#[verifier::external_type_specification]
#[verifier::external_body]
pub struct ExPathBuf(std::path::PathBuf);

/// The directory of public assets, unless another is set.
pub const DEFAULT_PUBLIC_DIRECTORY: &'static str = "public";

/// The directory of templates, unless another is set.
pub const DEFAULT_TEMPLATE_DIRECTORY: &'static str = "templates";

/// The extension of a requested path that names none, unless another is set.
pub const DEFAULT_EXTENSION: &'static str = "html";

/// The template that the empty path stands for, unless another is set.
pub const DEFAULT_DOCUMENT: &'static str = "index.html";

/// What is put behind the directory of templates to select every file in it
/// and below it.
pub const EVERY_FILE: &'static str = "/**/*";

/// The certificate and the key with which a server offers HTTP/3.
pub struct Http3Certification {
    /// The file that holds the certificate.
    pub cert: PathBuf,
    /// The file that holds the private key.
    pub key: PathBuf,
}

/// What an [`SSRender`] holds.
pub struct SSRenderModel {
    /// The directory of public assets.
    pub pub_assets_dir_name: Seq<char>,
    /// The directory of templates.
    pub tmpl_dir_name: Seq<char>,
    /// The address to listen on.
    pub host: Seq<char>,
    /// The template functions of the application, by name.
    pub tmpl_func_map: Map<Seq<char>, TemplateFunction>,
    /// The template filters of the application, by name.
    pub tmpl_filter_map: Map<Seq<char>, TemplateFilter>,
    /// The extension of a requested path that names none.
    pub default_view_file_postfix: Seq<char>,
    /// The template that the empty path stands for.
    pub default_view_file_name: Seq<char>,
    /// Whether the directories of public assets are listed.
    pub listing_assets: bool,
    /// The file that is served where a directory of public assets is
    /// requested.
    pub default_asset_filename: Option<Seq<char>>,
    /// The certificate for HTTP/3, where it is offered.
    pub use_http3: Option<Http3Certification>,
    /// When the templates are compiled.
    pub reload_policy: ReloadPolicy,
}

/// The configuration of a server that renders templates and serves public
/// assets.
pub struct SSRender {
    pub_assets_dir_name: String,
    tmpl_dir_name: String,
    host: String,
    tmpl_func_map: Registry<TemplateFunction>,
    tmpl_filter_map: Registry<TemplateFilter>,
    default_view_file_postfix: String,
    default_view_file_name: String,
    listing_assets: bool,
    default_asset_filename: Option<String>,
    use_http3: Option<Http3Certification>,
    reload_policy: ReloadPolicy,
}

impl View for SSRender {
    type V = SSRenderModel;

    closed spec fn view(&self) -> SSRenderModel {
        SSRenderModel {
            pub_assets_dir_name: self.pub_assets_dir_name@,
            tmpl_dir_name: self.tmpl_dir_name@,
            host: self.host@,
            tmpl_func_map: self.tmpl_func_map@,
            tmpl_filter_map: self.tmpl_filter_map@,
            default_view_file_postfix: self.default_view_file_postfix@,
            default_view_file_name: self.default_view_file_name@,
            listing_assets: self.listing_assets,
            default_asset_filename: match self.default_asset_filename {
                Some(name) => Some(name@),
                None => None,
            },
            use_http3: self.use_http3,
            reload_policy: self.reload_policy,
        }
    }
}

impl SSRender {
    /// The configuration of a server on `host`, with the defaults: the
    /// directories `public` and `templates`, the extension `html`, the
    /// document `index.html`, listed assets, no callables, no default asset,
    /// no HTTP/3, and templates that are compiled for every request.
    pub fn new(host: &str) -> (render: Self)
        ensures
            render@ == (SSRenderModel {
                pub_assets_dir_name: DEFAULT_PUBLIC_DIRECTORY@,
                tmpl_dir_name: DEFAULT_TEMPLATE_DIRECTORY@,
                host: host@,
                tmpl_func_map: Map::empty(),
                tmpl_filter_map: Map::empty(),
                default_view_file_postfix: DEFAULT_EXTENSION@,
                default_view_file_name: DEFAULT_DOCUMENT@,
                listing_assets: true,
                default_asset_filename: None,
                use_http3: None,
                reload_policy: ReloadPolicy::EveryRequest,
            }),
    {
        SSRender {
            pub_assets_dir_name: String::from_str(DEFAULT_PUBLIC_DIRECTORY),
            tmpl_dir_name: String::from_str(DEFAULT_TEMPLATE_DIRECTORY),
            host: String::from_str(host),
            tmpl_func_map: Registry::new(),
            tmpl_filter_map: Registry::new(),
            default_view_file_postfix: String::from_str(DEFAULT_EXTENSION),
            default_view_file_name: String::from_str(DEFAULT_DOCUMENT),
            listing_assets: true,
            default_asset_filename: None,
            use_http3: None,
            reload_policy: ReloadPolicy::EveryRequest,
        }
    }

    /// The address to listen on.
    pub fn host(&self) -> (host: &str)
        ensures
            host@ == self@.host,
    {
        self.host.as_str()
    }

    /// Sets the directory of public assets.
    pub fn set_pub_dir_name(&mut self, path: &str)
        ensures
            final(self)@ == (SSRenderModel { pub_assets_dir_name: path@, ..old(self)@ }),
    {
        self.pub_assets_dir_name = String::from_str(path);
    }

    /// Sets the directory of templates.
    pub fn set_tmpl_dir_name(&mut self, path: &str)
        ensures
            final(self)@ == (SSRenderModel { tmpl_dir_name: path@, ..old(self)@ }),
    {
        self.tmpl_dir_name = String::from_str(path);
    }

    /// Registers a template function under the name `k`, in place of the
    /// function that stood under that name.
    pub fn register_function(&mut self, k: String, f: TemplateFunction)
        ensures
            final(self)@ == (SSRenderModel {
                tmpl_func_map: old(self)@.tmpl_func_map.insert(k@, f),
                ..old(self)@
            }),
    {
        self.tmpl_func_map.insert(k, f);
    }

    /// Takes away the template function registered under the name `k`.
    pub fn rm_registed_function(&mut self, k: String)
        ensures
            final(self)@ == (SSRenderModel {
                tmpl_func_map: old(self)@.tmpl_func_map.remove(k@),
                ..old(self)@
            }),
    {
        self.tmpl_func_map.remove(k.as_str());
    }

    /// The registered template functions.
    pub fn registed_functions(&self) -> (functions: &Registry<TemplateFunction>)
        ensures
            functions@ == self@.tmpl_func_map,
    {
        &self.tmpl_func_map
    }

    /// Registers a template filter under the name `k`, in place of the filter
    /// that stood under that name.
    pub fn register_filter(&mut self, k: String, f: TemplateFilter)
        ensures
            final(self)@ == (SSRenderModel {
                tmpl_filter_map: old(self)@.tmpl_filter_map.insert(k@, f),
                ..old(self)@
            }),
    {
        self.tmpl_filter_map.insert(k, f);
    }

    /// Takes away the template filter registered under the name `k`.
    pub fn rm_registed_filter(&mut self, k: String)
        ensures
            final(self)@ == (SSRenderModel {
                tmpl_filter_map: old(self)@.tmpl_filter_map.remove(k@),
                ..old(self)@
            }),
    {
        self.tmpl_filter_map.remove(k.as_str());
    }

    /// The registered template filters.
    pub fn registed_filters(&self) -> (filters: &Registry<TemplateFilter>)
        ensures
            filters@ == self@.tmpl_filter_map,
    {
        &self.tmpl_filter_map
    }

    /// The directory of public assets.
    pub fn pub_dir_name(&self) -> (path: &str)
        ensures
            path@ == self@.pub_assets_dir_name,
    {
        self.pub_assets_dir_name.as_str()
    }

    /// The directory of templates.
    pub fn tmpl_dir_name(&self) -> (path: &str)
        ensures
            path@ == self@.tmpl_dir_name,
    {
        self.tmpl_dir_name.as_str()
    }

    /// A builder for the engines of the requests: it compiles every file in
    /// and below the directory of templates, and holds the registered
    /// callables.
    pub fn gen_tera_builder(&self) -> (builder: TeraBuilder)
        ensures
            builder@ == (TeraBuilderModel {
                tpl_dir: self@.tmpl_dir_name + EVERY_FILE@,
                tpl_funcs: self@.tmpl_func_map,
                tpl_filters: self@.tmpl_filter_map,
            }),
    {
        let mut pattern = self.tmpl_dir_name.clone();
        pattern.append(EVERY_FILE);
        TeraBuilder::new(pattern, self.tmpl_func_map.duplicate(), self.tmpl_filter_map.duplicate())
    }

    /// A handler for the requests for rendered templates, with the builder of
    /// [`SSRender::gen_tera_builder`], the default extension, the default
    /// document and the policy on compiling.
    pub fn gen_view_handler(&self) -> (handler: ViewHandler)
        ensures
            handler@ == (ViewHandlerModel {
                tera_builder: TeraBuilderModel {
                    tpl_dir: self@.tmpl_dir_name + EVERY_FILE@,
                    tpl_funcs: self@.tmpl_func_map,
                    tpl_filters: self@.tmpl_filter_map,
                },
                default_postfix: self@.default_view_file_postfix,
                default_view_file_name: self@.default_view_file_name,
                reload_policy: self@.reload_policy,
            }),
    {
        ViewHandler::new(
            self.gen_tera_builder(),
            self.default_view_file_postfix.clone(),
            self.default_view_file_name.clone(),
        ).with_reload_policy(self.reload_policy)
    }

    /// Sets when the templates are compiled.
    pub fn set_reload_policy(&mut self, policy: ReloadPolicy)
        ensures
            final(self)@ == (SSRenderModel { reload_policy: policy, ..old(self)@ }),
    {
        self.reload_policy = policy;
    }

    /// When the templates are compiled.
    pub fn reload_policy(&self) -> (policy: ReloadPolicy)
        ensures
            policy == self@.reload_policy,
    {
        self.reload_policy
    }

    /// Sets the extension of a requested path that names none.
    pub fn set_default_file_postfix(&mut self, postfix: &str)
        ensures
            final(self)@ == (SSRenderModel { default_view_file_postfix: postfix@, ..old(self)@ }),
    {
        self.default_view_file_postfix = String::from_str(postfix);
    }

    /// The extension of a requested path that names none.
    pub fn default_file_postfix(&self) -> (postfix: &str)
        ensures
            postfix@ == self@.default_view_file_postfix,
    {
        self.default_view_file_postfix.as_str()
    }

    /// Sets the template that the empty path stands for.
    pub fn set_default_file_name(&mut self, name: &str)
        ensures
            final(self)@ == (SSRenderModel { default_view_file_name: name@, ..old(self)@ }),
    {
        self.default_view_file_name = String::from_str(name);
    }

    /// The template that the empty path stands for.
    pub fn default_file_name(&self) -> (name: &str)
        ensures
            name@ == self@.default_view_file_name,
    {
        self.default_view_file_name.as_str()
    }

    /// Sets whether the directories of public assets are listed.
    pub fn set_listing_assets(&mut self, v: bool)
        ensures
            final(self)@ == (SSRenderModel { listing_assets: v, ..old(self)@ }),
    {
        self.listing_assets = v;
    }

    /// Whether the directories of public assets are listed.
    pub fn listing_assets(&self) -> (listing: bool)
        ensures
            listing == self@.listing_assets,
    {
        self.listing_assets
    }

    /// Sets the file that is served where a directory of public assets is
    /// requested.
    pub fn set_default_assets_filename(&mut self, v: &str)
        ensures
            final(self)@ == (SSRenderModel { default_asset_filename: Some(v@), ..old(self)@ }),
    {
        self.default_asset_filename = Some(String::from_str(v));
    }

    /// The file that is served where a directory of public assets is
    /// requested, if one is set.
    pub fn default_assets_filename(&self) -> (name: &Option<String>)
        ensures
            match name {
                Some(text) => self@.default_asset_filename == Some(text@),
                None => self@.default_asset_filename is None,
            },
    {
        &self.default_asset_filename
    }

    /// Sets the certificate with which the server offers HTTP/3.
    pub fn set_use_http3(&mut self, cert: Http3Certification)
        ensures
            final(self)@ == (SSRenderModel { use_http3: Some(cert), ..old(self)@ }),
    {
        self.use_http3 = Some(cert);
    }

    /// The certificate with which the server offers HTTP/3, if one is set.
    pub fn use_http3(&self) -> (cert: Option<&Http3Certification>)
        ensures
            match cert {
                Some(held) => self@.use_http3 == Some(*held),
                None => self@.use_http3 is None,
            },
    {
        self.use_http3.as_ref()
    }
}

} // verus!
