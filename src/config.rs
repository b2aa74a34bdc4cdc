//! The settings of a bot: its ids, where it listens, and the tokens it uses.

use vstd::prelude::*;

verus! {

#[derive(Debug, Clone)]
pub struct Config {
    bot_id: i64,
    root_id: i64,
    websocket_addr: String,
    http_addr: String,
    napcat_webui_token: String,
    napcat_websocket_token: String,
    napcat_http_token: String,
    ai_gemini_token: String,
    ai_deepseek_token: String,
}

impl Config {
    pub closed spec fn websocket_addr_view(&self) -> Seq<char> {
        self.websocket_addr@
    }

    pub closed spec fn http_addr_view(&self) -> Seq<char> {
        self.http_addr@
    }

    pub closed spec fn gemini_token_view(&self) -> Seq<char> {
        self.ai_gemini_token@
    }

    pub closed spec fn deepseek_token_view(&self) -> Seq<char> {
        self.ai_deepseek_token@
    }

    /// The three gateway tokens: web UI, WebSocket, HTTP.
    pub closed spec fn napcat_tokens_view(&self) -> (Seq<char>, Seq<char>, Seq<char>) {
        (self.napcat_webui_token@, self.napcat_websocket_token@, self.napcat_http_token@)
    }

    pub closed spec fn ids(&self) -> (i64, i64) {
        (self.bot_id, self.root_id)
    }

    /// The default settings: ids 0, the WebSocket server on 0.0.0.0:3000,
    /// HTTP on 0.0.0.0:3001, and every token empty. The process's
    /// environment supplies the AI tokens through the setters.
    pub fn get_or_init() -> (r: Config)
        ensures
            r.ids() == (0i64, 0i64),
            r.websocket_addr_view() == "0.0.0.0:3000"@,
            r.http_addr_view() == "0.0.0.0:3001"@,
            r.gemini_token_view() == Seq::<char>::empty(),
            r.deepseek_token_view() == Seq::<char>::empty(),
            r.napcat_tokens_view() == (Seq::<char>::empty(), Seq::<char>::empty(), Seq::<char>::empty()),
    {
        Config {
            bot_id: 0,
            root_id: 0,
            websocket_addr: String::from_str("0.0.0.0:3000"),
            http_addr: String::from_str("0.0.0.0:3001"),
            napcat_webui_token: String::new(),
            napcat_websocket_token: String::new(),
            napcat_http_token: String::new(),
            ai_gemini_token: String::new(),
            ai_deepseek_token: String::new(),
        }
    }

    pub fn bot_id(&self) -> (r: i64)
        ensures
            r == self.ids().0,
    {
        self.bot_id
    }

    pub fn root_id(&self) -> (r: i64)
        ensures
            r == self.ids().1,
    {
        self.root_id
    }

    pub fn websocket_addr(&self) -> (r: &String)
        ensures
            r@ == self.websocket_addr_view(),
    {
        &self.websocket_addr
    }

    pub fn http_addr(&self) -> (r: &String)
        ensures
            r@ == self.http_addr_view(),
    {
        &self.http_addr
    }

    pub fn napcat_webui_token(&self) -> (r: &String)
        ensures
            r@ == self.napcat_tokens_view().0,
    {
        &self.napcat_webui_token
    }

    pub fn napcat_websocket_token(&self) -> (r: &String)
        ensures
            r@ == self.napcat_tokens_view().1,
    {
        &self.napcat_websocket_token
    }

    pub fn napcat_http_token(&self) -> (r: &String)
        ensures
            r@ == self.napcat_tokens_view().2,
    {
        &self.napcat_http_token
    }

    pub fn ai_gemini_token(&self) -> (r: &String)
        ensures
            r@ == self.gemini_token_view(),
    {
        &self.ai_gemini_token
    }

    pub fn ai_deepseek_token(&self) -> (r: &String)
        ensures
            r@ == self.deepseek_token_view(),
    {
        &self.ai_deepseek_token
    }

    pub fn set_websocket_addr(&mut self, addr: &str)
        ensures
            final(self).websocket_addr_view() == addr@,
            final(self).ids() == old(self).ids(),
            final(self).napcat_tokens_view() == old(self).napcat_tokens_view(),
            final(self).http_addr_view() == old(self).http_addr_view(),
            final(self).gemini_token_view() == old(self).gemini_token_view(),
            final(self).deepseek_token_view() == old(self).deepseek_token_view(),
    {
        self.websocket_addr = String::from_str(addr);
    }

    pub fn set_ai_gemini_token(&mut self, token: &str)
        ensures
            final(self).gemini_token_view() == token@,
            final(self).ids() == old(self).ids(),
            final(self).napcat_tokens_view() == old(self).napcat_tokens_view(),
            final(self).websocket_addr_view() == old(self).websocket_addr_view(),
            final(self).http_addr_view() == old(self).http_addr_view(),
            final(self).deepseek_token_view() == old(self).deepseek_token_view(),
    {
        self.ai_gemini_token = String::from_str(token);
    }

    pub fn set_ai_deepseek_token(&mut self, token: &str)
        ensures
            final(self).deepseek_token_view() == token@,
            final(self).ids() == old(self).ids(),
            final(self).napcat_tokens_view() == old(self).napcat_tokens_view(),
            final(self).websocket_addr_view() == old(self).websocket_addr_view(),
            final(self).http_addr_view() == old(self).http_addr_view(),
            final(self).gemini_token_view() == old(self).gemini_token_view(),
    {
        self.ai_deepseek_token = String::from_str(token);
    }
}

} // verus!
